//! The marketplace's persistent state, and the accessors through which the
//! other modules read and write it.
use std::collections::HashMap;
use vstd::prelude::*;

use crate::errors::Error;
use crate::types::{
    Address, EscrowInfo, Quest, QuestId, QuestStatus, Submission, SubmissionStatus, UserStats,
};
use crate::validation::{is_terminal, MAX_QUEST_CLAIMS};

verus! {

broadcast use vstd::std_specs::hash::group_hash_axioms;

/// Number of distinct admin approvals needed to schedule an unpause, until
/// an admin sets another.
pub const DEFAULT_UNPAUSE_THRESHOLD: u32 = 2;

/// What a `Storage` holds, as mathematical maps and sets.
pub struct StorageView {
    pub quests: Map<QuestId, Quest>,
    /// Quest ids in order of registration.
    pub quest_ids: Seq<QuestId>,
    /// Keyed by (quest, submitter): at most one submission per pair.
    pub submissions: Map<(QuestId, Address), Submission>,
    pub escrows: Map<QuestId, EscrowInfo>,
    pub user_stats: Map<Address, UserStats>,
    pub admins: Set<Address>,
    pub paused: bool,
    /// Incremented on every unpause, which invalidates older approvals.
    pub unpause_round: u32,
    /// For each admin, the last round in which it approved an unpause.
    pub unpause_approvals: Map<Address, u32>,
    pub approval_count: u32,
    pub unpause_threshold: u32,
    pub unpause_timelock_seconds: u64,
    pub scheduled_unpause_time: Option<u64>,
}

/// `r` together with the change from `before` to `after` is what `expected`
/// prescribes: the new state on success; on failure the error, with the
/// state untouched.
pub open spec fn outcome_is(
    r: Result<(), Error>,
    before: StorageView,
    after: StorageView,
    expected: Result<StorageView, Error>,
) -> bool {
    match expected {
        Ok(next) => r == Ok::<(), Error>(()) && after == next,
        Err(e) => r == Err::<(), Error>(e) && after == before,
    }
}

/// As `outcome_is`, for an operation that also returns an amount.
pub open spec fn outcome_with_amount_is(
    r: Result<i128, Error>,
    before: StorageView,
    after: StorageView,
    expected: Result<(StorageView, i128), Error>,
) -> bool {
    match expected {
        Ok((next, v)) => r == Ok::<i128, Error>(v) && after == next,
        Err(e) => r == Err::<i128, Error>(e) && after == before,
    }
}

/// No quest's claim count went down from `before` to `after`, and no
/// quest disappeared.
pub open spec fn claims_monotone(before: StorageView, after: StorageView) -> bool {
    forall|id: QuestId| #[trigger]
        before.quests.contains_key(id) ==> after.quests.contains_key(id)
            && before.quests[id].total_claims <= after.quests[id].total_claims
}

/// The record invariants of a quest.
pub open spec fn quest_wf(q: Quest) -> bool {
    &&& 0 < q.reward_amount <= crate::validation::MAX_REWARD_AMOUNT
    &&& q.total_claims <= MAX_QUEST_CLAIMS
    &&& q.creator != q.verifier
}

impl StorageView {
    /// The state of a freshly deployed marketplace.
    pub open spec fn initial() -> StorageView {
        StorageView {
            quests: Map::empty(),
            quest_ids: Seq::empty(),
            submissions: Map::empty(),
            escrows: Map::empty(),
            user_stats: Map::empty(),
            admins: Set::empty(),
            paused: false,
            unpause_round: 0,
            unpause_approvals: Map::empty(),
            approval_count: 0,
            unpause_threshold: DEFAULT_UNPAUSE_THRESHOLD,
            unpause_timelock_seconds: 0,
            scheduled_unpause_time: None,
        }
    }

    /// Every record is stored under its own key and keeps its invariants;
    /// in particular every escrow conserves funds.
    pub open spec fn wf(self) -> bool {
        &&& forall|id: QuestId| #[trigger]
            self.quests.contains_key(id) ==> self.quests[id].id == id && quest_wf(self.quests[id])
        &&& forall|id: QuestId| #[trigger]
            self.escrows.contains_key(id) ==> self.escrows[id].quest_id == id
                && self.escrows[id].wf()
        &&& forall|k: (QuestId, Address)| #[trigger]
            self.submissions.contains_key(k) ==> self.submissions[k].quest_id == k.0
                && self.submissions[k].submitter == k.1
    }

    /// Whether `admin` approved an unpause in the current round.
    pub open spec fn approved(self, admin: Address) -> bool {
        self.unpause_approvals.contains_key(admin) && self.unpause_approvals[admin]
            == self.unpause_round
    }

    pub open spec fn with_quest(self, id: QuestId, q: Quest) -> StorageView {
        StorageView { quests: self.quests.insert(id, q), ..self }
    }

    pub open spec fn with_quest_id(self, id: QuestId) -> StorageView {
        StorageView { quest_ids: self.quest_ids.push(id), ..self }
    }

    pub open spec fn with_submission(self, quest_id: QuestId, submitter: Address, s: Submission) -> StorageView {
        StorageView { submissions: self.submissions.insert((quest_id, submitter), s), ..self }
    }

    pub open spec fn with_escrow(self, quest_id: QuestId, e: EscrowInfo) -> StorageView {
        StorageView { escrows: self.escrows.insert(quest_id, e), ..self }
    }
}

/// The marketplace's state: quests, submissions, escrows and the
/// emergency-pause bookkeeping.
#[derive(Debug)]
pub struct Storage {
    quests: HashMap<QuestId, Quest>,
    quest_ids: Vec<QuestId>,
    submissions: HashMap<QuestId, HashMap<Address, Submission>>,
    escrows: HashMap<QuestId, EscrowInfo>,
    user_stats: HashMap<Address, UserStats>,
    /// The admins, as keys.
    admins: HashMap<Address, ()>,
    paused: bool,
    unpause_round: u32,
    unpause_approvals: HashMap<Address, u32>,
    approval_count: u32,
    unpause_threshold: u32,
    unpause_timelock_seconds: u64,
    scheduled_unpause_time: Option<u64>,
}

impl View for Storage {
    type V = StorageView;

    closed spec fn view(&self) -> StorageView {
        StorageView {
            quests: self.quests@,
            quest_ids: self.quest_ids@,
            submissions: Map::new(
                |k: (QuestId, Address)|
                    self.submissions@.contains_key(k.0) && self.submissions@[k.0]@.contains_key(
                        k.1,
                    ),
                |k: (QuestId, Address)| self.submissions@[k.0]@[k.1],
            ),
            escrows: self.escrows@,
            user_stats: self.user_stats@,
            admins: self.admins@.dom(),
            paused: self.paused,
            unpause_round: self.unpause_round,
            unpause_approvals: self.unpause_approvals@,
            approval_count: self.approval_count,
            unpause_threshold: self.unpause_threshold,
            unpause_timelock_seconds: self.unpause_timelock_seconds,
            scheduled_unpause_time: self.scheduled_unpause_time,
        }
    }
}

impl Storage {
    pub fn new() -> (r: Storage)
        ensures
            r@ == StorageView::initial(),
    {
        let r = Storage {
            quests: HashMap::new(),
            quest_ids: Vec::new(),
            submissions: HashMap::new(),
            escrows: HashMap::new(),
            user_stats: HashMap::new(),
            admins: HashMap::new(),
            paused: false,
            unpause_round: 0,
            unpause_approvals: HashMap::new(),
            approval_count: 0,
            unpause_threshold: DEFAULT_UNPAUSE_THRESHOLD,
            unpause_timelock_seconds: 0,
            scheduled_unpause_time: None,
        };
        assert(r@.submissions =~= Map::empty());
        r
    }

    /// A copy holding the same state, used to stage a multi-step change
    /// that is committed only if every step succeeds.
    pub fn snapshot(&self) -> (r: Storage)
        ensures
            r@ == self@,
    {
        let r = Storage {
            quests: self.quests.clone(),
            quest_ids: self.quest_ids.clone(),
            submissions: self.submissions.clone(),
            escrows: self.escrows.clone(),
            user_stats: self.user_stats.clone(),
            admins: self.admins.clone(),
            paused: self.paused,
            unpause_round: self.unpause_round,
            unpause_approvals: self.unpause_approvals.clone(),
            approval_count: self.approval_count,
            unpause_threshold: self.unpause_threshold,
            unpause_timelock_seconds: self.unpause_timelock_seconds,
            scheduled_unpause_time: self.scheduled_unpause_time,
        };
        assert(r@.submissions =~= self@.submissions);
        assert(r@.quest_ids =~= self@.quest_ids);
        r
    }

    // ---------------------------------------------------------------- quests

    pub fn has_quest(&self, id: QuestId) -> (r: bool)
        ensures
            r == self@.quests.contains_key(id),
    {
        self.quests.contains_key(&id)
    }

    pub fn get_quest(&self, id: QuestId) -> (r: Result<Quest, Error>)
        ensures
            r == (if self@.quests.contains_key(id) {
                Ok::<Quest, Error>(self@.quests[id])
            } else {
                Err(Error::QuestNotFound)
            }),
    {
        match self.quests.get(&id) {
            Some(q) => Ok(*q),
            None => Err(Error::QuestNotFound),
        }
    }

    /// Stores `quest` under `id`, replacing any quest stored there.
    pub fn set_quest(&mut self, id: QuestId, quest: &Quest)
        ensures
            final(self)@ == old(self)@.with_quest(id, *quest),
    {
        self.quests.insert(id, *quest);
        assert(final(self)@.submissions =~= old(self)@.submissions);
    }

    pub fn update_quest_status(&mut self, id: QuestId, status: QuestStatus) -> (r: Result<(), Error>)
        ensures
            old(self)@.quests.contains_key(id) ==> r is Ok && final(self)@ == old(self)@.with_quest(
                id,
                Quest { status, ..old(self)@.quests[id] },
            ),
            !old(self)@.quests.contains_key(id) ==> r == Err::<(), Error>(Error::QuestNotFound)
                && final(self)@ == old(self)@,
    {
        let mut quest = self.get_quest(id)?;
        quest.status = status;
        self.set_quest(id, &quest);
        Ok(())
    }

    pub fn increment_quest_claims(&mut self, id: QuestId) -> (r: Result<(), Error>)
        requires
            old(self)@.quests.contains_key(id) ==> old(self)@.quests[id].total_claims
                < MAX_QUEST_CLAIMS,
        ensures
            old(self)@.quests.contains_key(id) ==> r is Ok && final(self)@ == old(self)@.with_quest(
                id,
                Quest {
                    total_claims: (old(self)@.quests[id].total_claims + 1) as u32,
                    ..old(self)@.quests[id]
                },
            ),
            !old(self)@.quests.contains_key(id) ==> r == Err::<(), Error>(Error::QuestNotFound)
                && final(self)@ == old(self)@,
    {
        let mut quest = self.get_quest(id)?;
        quest.total_claims = quest.total_claims + 1;
        self.set_quest(id, &quest);
        Ok(())
    }

    /// The ids of all registered quests, in order of registration.
    pub fn get_quest_ids(&self) -> (r: &Vec<QuestId>)
        ensures
            r@ == self@.quest_ids,
    {
        &self.quest_ids
    }

    pub fn add_quest_id(&mut self, id: QuestId)
        ensures
            final(self)@ == old(self)@.with_quest_id(id),
    {
        self.quest_ids.push(id);
        assert(final(self)@.submissions =~= old(self)@.submissions);
    }

    /// Removes a quest that has reached a terminal state.
    pub fn delete_quest(&mut self, id: QuestId) -> (r: Result<(), Error>)
        ensures
            !old(self)@.quests.contains_key(id) ==> r == Err::<(), Error>(Error::QuestNotFound)
                && final(self)@ == old(self)@,
            old(self)@.quests.contains_key(id) && !is_terminal(old(self)@.quests[id].status) ==> r
                == Err::<(), Error>(Error::QuestStillActive) && final(self)@ == old(self)@,
            old(self)@.quests.contains_key(id) && is_terminal(old(self)@.quests[id].status) ==> r
                is Ok && final(self)@ == (StorageView {
                quests: old(self)@.quests.remove(id),
                ..old(self)@
            }),
    {
        let quest = self.get_quest(id)?;
        if quest.status == QuestStatus::Active || quest.status == QuestStatus::Paused {
            return Err(Error::QuestStillActive);
        }
        self.quests.remove(&id);
        assert(final(self)@.submissions =~= old(self)@.submissions);
        Ok(())
    }

    // ----------------------------------------------------------- submissions

    /// Removes the submission of `submitter` for `quest_id`, if any.
    pub fn delete_submission(&mut self, quest_id: QuestId, submitter: Address)
        ensures
            final(self)@ == (StorageView {
                submissions: old(self)@.submissions.remove((quest_id, submitter)),
                ..old(self)@
            }),
    {
        let inner = match self.submissions.get(&quest_id) {
            Some(m) => {
                let mut m = m.clone();
                m.remove(&submitter);
                Some(m)
            },
            None => None,
        };
        if let Some(m) = inner {
            self.submissions.insert(quest_id, m);
        }
        assert(final(self)@.submissions =~= old(self)@.submissions.remove((quest_id, submitter)));
    }

    pub fn has_submission(&self, quest_id: QuestId, submitter: Address) -> (r: bool)
        ensures
            r == self@.submissions.contains_key((quest_id, submitter)),
    {
        match self.submissions.get(&quest_id) {
            Some(m) => m.contains_key(&submitter),
            None => false,
        }
    }

    pub fn get_submission(&self, quest_id: QuestId, submitter: Address) -> (r: Result<
        Submission,
        Error,
    >)
        ensures
            r == (if self@.submissions.contains_key((quest_id, submitter)) {
                Ok::<Submission, Error>(self@.submissions[(quest_id, submitter)])
            } else {
                Err(Error::SubmissionNotFound)
            }),
    {
        match self.submissions.get(&quest_id) {
            Some(m) => match m.get(&submitter) {
                Some(s) => Ok(*s),
                None => Err(Error::SubmissionNotFound),
            },
            None => Err(Error::SubmissionNotFound),
        }
    }

    /// Stores `submission` under `(quest_id, submitter)`, replacing any
    /// submission stored there.
    pub fn set_submission(&mut self, quest_id: QuestId, submitter: Address, submission: &Submission)
        ensures
            final(self)@ == old(self)@.with_submission(quest_id, submitter, *submission),
    {
        let mut inner = match self.submissions.get(&quest_id) {
            Some(m) => m.clone(),
            None => HashMap::new(),
        };
        inner.insert(submitter, *submission);
        self.submissions.insert(quest_id, inner);
        assert(final(self)@.submissions =~= old(self)@.submissions.insert(
            (quest_id, submitter),
            *submission,
        ));
    }

    pub fn update_submission_status(
        &mut self,
        quest_id: QuestId,
        submitter: Address,
        status: SubmissionStatus,
    ) -> (r: Result<(), Error>)
        ensures
            old(self)@.submissions.contains_key((quest_id, submitter)) ==> r is Ok && final(self)@
                == old(self)@.with_submission(
                quest_id,
                submitter,
                Submission { status, ..old(self)@.submissions[(quest_id, submitter)] },
            ),
            !old(self)@.submissions.contains_key((quest_id, submitter)) ==> r == Err::<(), Error>(
                Error::SubmissionNotFound,
            ) && final(self)@ == old(self)@,
    {
        let mut submission = self.get_submission(quest_id, submitter)?;
        submission.status = status;
        self.set_submission(quest_id, submitter, &submission);
        Ok(())
    }

    // --------------------------------------------------------------- escrows

    pub fn has_escrow(&self, quest_id: QuestId) -> (r: bool)
        ensures
            r == self@.escrows.contains_key(quest_id),
    {
        self.escrows.contains_key(&quest_id)
    }

    pub fn get_escrow(&self, quest_id: QuestId) -> (r: Result<EscrowInfo, Error>)
        ensures
            r == (if self@.escrows.contains_key(quest_id) {
                Ok::<EscrowInfo, Error>(self@.escrows[quest_id])
            } else {
                Err(Error::EscrowNotFound)
            }),
    {
        match self.escrows.get(&quest_id) {
            Some(e) => Ok(*e),
            None => Err(Error::EscrowNotFound),
        }
    }

    pub fn set_escrow(&mut self, quest_id: QuestId, escrow: &EscrowInfo)
        ensures
            final(self)@ == old(self)@.with_escrow(quest_id, *escrow),
    {
        self.escrows.insert(quest_id, *escrow);
        assert(final(self)@.submissions =~= old(self)@.submissions);
    }

    pub fn delete_escrow(&mut self, quest_id: QuestId)
        ensures
            final(self)@ == (StorageView { escrows: old(self)@.escrows.remove(quest_id), ..old(self)@ }),
    {
        self.escrows.remove(&quest_id);
        assert(final(self)@.submissions =~= old(self)@.submissions);
    }

    // ---------------------------------------------------------------- admins

    pub fn is_admin(&self, address: Address) -> (r: bool)
        ensures
            r == self@.admins.contains(address),
    {
        self.admins.contains_key(&address)
    }

    pub fn set_admin(&mut self, address: Address)
        ensures
            final(self)@ == (StorageView { admins: old(self)@.admins.insert(address), ..old(self)@ }),
    {
        self.admins.insert(address, ());
        assert(final(self)@.submissions =~= old(self)@.submissions);
        assert(final(self)@.admins =~= old(self)@.admins.insert(address));
    }

    pub fn remove_admin(&mut self, address: Address)
        ensures
            final(self)@ == (StorageView { admins: old(self)@.admins.remove(address), ..old(self)@ }),
    {
        self.admins.remove(&address);
        assert(final(self)@.submissions =~= old(self)@.submissions);
        assert(final(self)@.admins =~= old(self)@.admins.remove(address));
    }

    // ------------------------------------------------------- emergency pause

    pub fn set_paused(&mut self, paused: bool)
        ensures
            final(self)@ == (StorageView { paused, ..old(self)@ }),
    {
        self.paused = paused;
        assert(final(self)@.submissions =~= old(self)@.submissions);
    }

    pub fn is_paused(&self) -> (r: bool)
        ensures
            r == self@.paused,
    {
        self.paused
    }

    /// Records (`approved`) or withdraws an admin's unpause approval for the
    /// current round, keeping the round's approval count in step.
    pub fn set_unpause_approval(&mut self, admin: Address, approved: bool)
        ensures
            approved && !old(self)@.approved(admin) ==> final(self)@ == (StorageView {
                unpause_approvals: old(self)@.unpause_approvals.insert(
                    admin,
                    old(self)@.unpause_round,
                ),
                approval_count: if old(self)@.approval_count < u32::MAX {
                    (old(self)@.approval_count + 1) as u32
                } else {
                    old(self)@.approval_count
                },
                ..old(self)@
            }),
            !approved && old(self)@.approved(admin) ==> final(self)@ == (StorageView {
                unpause_approvals: old(self)@.unpause_approvals.remove(admin),
                approval_count: if old(self)@.approval_count > 0 {
                    (old(self)@.approval_count - 1) as u32
                } else {
                    0
                },
                ..old(self)@
            }),
            approved == old(self)@.approved(admin) ==> final(self)@ == old(self)@,
    {
        let round = self.unpause_round;
        if approved {
            if !self.has_unpause_approval(admin) {
                self.unpause_approvals.insert(admin, round);
                self.approval_count = self.approval_count.saturating_add(1);
            }
        } else {
            if self.has_unpause_approval(admin) {
                self.unpause_approvals.remove(&admin);
                self.approval_count = self.approval_count.saturating_sub(1);
            }
        }
        assert(final(self)@.submissions =~= old(self)@.submissions);
    }

    pub fn has_unpause_approval(&self, admin: Address) -> (r: bool)
        ensures
            r == self@.approved(admin),
    {
        match self.unpause_approvals.get(&admin) {
            Some(round) => *round == self.unpause_round,
            None => false,
        }
    }

    pub fn get_unpause_round(&self) -> (r: u32)
        ensures
            r == self@.unpause_round,
    {
        self.unpause_round
    }

    pub fn inc_unpause_round(&mut self)
        ensures
            final(self)@ == (StorageView {
                unpause_round: if old(self)@.unpause_round < u32::MAX {
                    (old(self)@.unpause_round + 1) as u32
                } else {
                    old(self)@.unpause_round
                },
                ..old(self)@
            }),
    {
        self.unpause_round = self.unpause_round.saturating_add(1);
        assert(final(self)@.submissions =~= old(self)@.submissions);
    }

    /// Restores the round number of a state kept elsewhere.
    pub fn set_unpause_round(&mut self, round: u32)
        ensures
            final(self)@ == (StorageView { unpause_round: round, ..old(self)@ }),
    {
        self.unpause_round = round;
        assert(final(self)@.submissions =~= old(self)@.submissions);
    }

    /// Restores the approval count of a state kept elsewhere.
    pub fn set_approval_count(&mut self, count: u32)
        ensures
            final(self)@ == (StorageView { approval_count: count, ..old(self)@ }),
    {
        self.approval_count = count;
        assert(final(self)@.submissions =~= old(self)@.submissions);
    }

    pub fn count_unpause_approvals(&self) -> (r: u32)
        ensures
            r == self@.approval_count,
    {
        self.approval_count
    }

    pub fn set_unpause_threshold(&mut self, threshold: u32)
        ensures
            final(self)@ == (StorageView { unpause_threshold: threshold, ..old(self)@ }),
    {
        self.unpause_threshold = threshold;
        assert(final(self)@.submissions =~= old(self)@.submissions);
    }

    pub fn get_unpause_threshold(&self) -> (r: u32)
        ensures
            r == self@.unpause_threshold,
    {
        self.unpause_threshold
    }

    pub fn set_unpause_timelock_seconds(&mut self, seconds: u64)
        ensures
            final(self)@ == (StorageView { unpause_timelock_seconds: seconds, ..old(self)@ }),
    {
        self.unpause_timelock_seconds = seconds;
        assert(final(self)@.submissions =~= old(self)@.submissions);
    }

    pub fn get_unpause_timelock_seconds(&self) -> (r: u64)
        ensures
            r == self@.unpause_timelock_seconds,
    {
        self.unpause_timelock_seconds
    }

    pub fn set_scheduled_unpause_time(&mut self, ts: u64)
        ensures
            final(self)@ == (StorageView { scheduled_unpause_time: Some(ts), ..old(self)@ }),
    {
        self.scheduled_unpause_time = Some(ts);
        assert(final(self)@.submissions =~= old(self)@.submissions);
    }

    pub fn get_scheduled_unpause_time(&self) -> (r: Option<u64>)
        ensures
            r == self@.scheduled_unpause_time,
    {
        self.scheduled_unpause_time
    }

    /// Starts a new approval round: every earlier approval stops counting,
    /// the count restarts at zero and no unpause stays scheduled.
    pub fn clear_unpause_approvals(&mut self)
        ensures
            final(self)@ == (StorageView {
                unpause_round: if old(self)@.unpause_round < u32::MAX {
                    (old(self)@.unpause_round + 1) as u32
                } else {
                    old(self)@.unpause_round
                },
                unpause_approvals: Map::empty(),
                approval_count: 0,
                scheduled_unpause_time: None,
                ..old(self)@
            }),
    {
        self.inc_unpause_round();
        self.unpause_approvals.clear();
        self.approval_count = 0;
        self.scheduled_unpause_time = None;
        assert(final(self)@.submissions =~= old(self)@.submissions);
    }

    // ------------------------------------------------------------ user stats

    pub fn has_user_stats(&self, user: Address) -> (r: bool)
        ensures
            r == self@.user_stats.contains_key(user),
    {
        self.user_stats.contains_key(&user)
    }

    pub fn get_user_stats(&self, user: Address) -> (r: Result<UserStats, Error>)
        ensures
            self@.user_stats.contains_key(user) ==> (r matches Ok(s) && s.same_as(
                self@.user_stats[user],
            )),
            !self@.user_stats.contains_key(user) ==> r == Err::<UserStats, Error>(
                Error::UserStatsNotFound,
            ),
    {
        match self.user_stats.get(&user) {
            Some(s) => Ok(s.copy()),
            None => Err(Error::UserStatsNotFound),
        }
    }

    /// The user's stats, or fresh ones for a user with none recorded.
    pub fn get_user_stats_or_default(&self, user: Address) -> (r: UserStats)
        ensures
            self@.user_stats.contains_key(user) ==> r.same_as(self@.user_stats[user]),
            !self@.user_stats.contains_key(user) ==> r.is_fresh(),
    {
        match self.get_user_stats(user) {
            Ok(s) => s,
            Err(_) => UserStats::fresh(),
        }
    }

    pub fn set_user_stats(&mut self, user: Address, stats: UserStats)
        ensures
            final(self)@ == (StorageView {
                user_stats: old(self)@.user_stats.insert(user, stats),
                ..old(self)@
            }),
    {
        self.user_stats.insert(user, stats);
        assert(final(self)@.submissions =~= old(self)@.submissions);
    }

    pub fn delete_user_stats(&mut self, user: Address)
        ensures
            final(self)@ == (StorageView {
                user_stats: old(self)@.user_stats.remove(user),
                ..old(self)@
            }),
    {
        self.user_stats.remove(&user);
        assert(final(self)@.submissions =~= old(self)@.submissions);
    }

    /// Adds experience points (saturating) and recomputes the level; returns
    /// the new stats.
    pub fn add_user_xp(&mut self, user: Address, xp_delta: u64) -> (r: Result<UserStats, Error>)
        ensures
            !old(self)@.user_stats.contains_key(user) ==> r == Err::<UserStats, Error>(
                Error::UserStatsNotFound,
            ) && final(self)@ == old(self)@,
            old(self)@.user_stats.contains_key(user) ==> {
                let before = old(self)@.user_stats[user];
                let xp = if before.xp + xp_delta <= u64::MAX {
                    (before.xp + xp_delta) as u64
                } else {
                    u64::MAX
                };
                &&& final(self)@.user_stats.contains_key(user)
                &&& final(self)@.user_stats[user].xp == xp
                &&& final(self)@.user_stats[user].level == UserStats::level_for(xp)
                &&& final(self)@.user_stats[user].quests_completed == before.quests_completed
                &&& final(self)@.user_stats[user].badges@ == before.badges@
                &&& (r matches Ok(s) && s.same_as(final(self)@.user_stats[user]))
                &&& final(self)@ == (StorageView {
                    user_stats: old(self)@.user_stats.insert(user, final(self)@.user_stats[user]),
                    ..old(self)@
                })
            },
    {
        let mut stats = match self.user_stats.remove(&user) {
            Some(s) => s,
            None => {
                assert(final(self)@.submissions =~= old(self)@.submissions);
                assert(final(self)@.user_stats =~= old(self)@.user_stats);
                return Err(Error::UserStatsNotFound);
            },
        };
        stats.xp = stats.xp.saturating_add(xp_delta);
        stats.level = UserStats::level_of(stats.xp);
        let result = stats.copy();
        self.user_stats.insert(user, stats);
        assert(final(self)@.submissions =~= old(self)@.submissions);
        assert(final(self)@.user_stats =~= old(self)@.user_stats.insert(
            user,
            final(self)@.user_stats[user],
        ));
        Ok(result)
    }
}

} // verus!
