//! The marketplace's entry points. Every mutating one is refused with
//! `Paused` while the emergency pause is on (the pause controls
//! themselves excepted); otherwise it is the operation of the module that
//! owns it. `now` is the current time, supplied by the caller.
use vstd::prelude::*;

use crate::errors::Error;
use crate::escrow;
use crate::quest;
use crate::security;
use crate::storage::{claims_monotone, outcome_is, outcome_with_amount_is, Storage, StorageView};
use crate::submission;
use crate::types::{
    Address, BatchApprovalInput, BatchQuestInput, EscrowInfo, Quest, QuestId, QuestStatus,
    Submission, UserStats,
};

verus! {

/// Refuses `step` with `Paused` while the pause is on.
pub open spec fn gated(s: StorageView, step: Result<StorageView, Error>) -> Result<StorageView, Error> {
    if s.paused {
        Err(Error::Paused)
    } else {
        step
    }
}

/// As `gated`, for an operation that also returns an amount.
pub open spec fn gated_with_amount(s: StorageView, step: Result<(StorageView, i128), Error>) -> Result<
    (StorageView, i128),
    Error,
> {
    if s.paused {
        Err(Error::Paused)
    } else {
        step
    }
}

/// The marketplace, ready to serve calls.
#[derive(Debug)]
pub struct EarnQuestContract {
    storage: Storage,
}

impl View for EarnQuestContract {
    type V = StorageView;

    closed spec fn view(&self) -> StorageView {
        self.storage@
    }
}

impl EarnQuestContract {
    /// A marketplace with `admin` as its only admin.
    pub fn new(admin: Address) -> (r: EarnQuestContract)
        ensures
            r@ == (StorageView { admins: set![admin], ..StorageView::initial() }),
            r@.wf(),
    {
        let mut storage = Storage::new();
        storage.set_admin(admin);
        proof {
            assert(Set::<Address>::empty().insert(admin) =~= set![admin]);
        }
        EarnQuestContract { storage }
    }

    pub fn register_quest(
        &mut self,
        now: u64,
        id: QuestId,
        creator: Address,
        reward_asset: Address,
        reward_amount: i128,
        verifier: Address,
        deadline: u64,
    ) -> (r: Result<(), Error>)
        requires
            old(self)@.wf(),
        ensures
            final(self)@.wf(),
            claims_monotone(old(self)@, final(self)@),
            outcome_is(
                r,
                old(self)@,
                final(self)@,
                gated(
                    old(self)@,
                    quest::register_quest_step(
                        old(self)@,
                        now,
                        id,
                        creator,
                        reward_asset,
                        reward_amount,
                        verifier,
                        deadline,
                    ),
                ),
            ),
    {
        security::require_not_paused(&self.storage)?;
        quest::register_quest(
            &mut self.storage,
            now,
            id,
            creator,
            reward_asset,
            reward_amount,
            verifier,
            deadline,
        )
    }

    /// Registers every quest of `quests` for `creator`, or none of them.
    pub fn register_quests_batch(
        &mut self,
        now: u64,
        creator: Address,
        quests: &Vec<BatchQuestInput>,
    ) -> (r: Result<(), Error>)
        requires
            old(self)@.wf(),
        ensures
            final(self)@.wf(),
            claims_monotone(old(self)@, final(self)@),
            outcome_is(
                r,
                old(self)@,
                final(self)@,
                gated(old(self)@, quest::register_batch_step(old(self)@, now, creator, quests@)),
            ),
    {
        security::require_not_paused(&self.storage)?;
        proof {
            quest::lemma_register_items_monotone(self@, now, creator, quests@);
        }
        quest::register_quests_batch(&mut self.storage, now, creator, quests)
    }

    pub fn update_quest_status(&mut self, id: QuestId, caller: Address, status: QuestStatus) -> (r:
        Result<(), Error>)
        requires
            old(self)@.wf(),
        ensures
            final(self)@.wf(),
            claims_monotone(old(self)@, final(self)@),
            outcome_is(
                r,
                old(self)@,
                final(self)@,
                gated(old(self)@, quest::update_status_step(old(self)@, id, caller, status)),
            ),
    {
        security::require_not_paused(&self.storage)?;
        quest::update_quest_status(&mut self.storage, id, caller, status)
    }

    pub fn submit_proof(
        &mut self,
        now: u64,
        quest_id: QuestId,
        submitter: Address,
        proof_hash: &[u8; 32],
    ) -> (r: Result<(), Error>)
        requires
            old(self)@.wf(),
        ensures
            final(self)@.wf(),
            claims_monotone(old(self)@, final(self)@),
            outcome_is(
                r,
                old(self)@,
                final(self)@,
                gated(
                    old(self)@,
                    submission::submit_step(old(self)@, now, quest_id, submitter, *proof_hash),
                ),
            ),
    {
        security::require_not_paused(&self.storage)?;
        submission::submit_proof(&mut self.storage, now, quest_id, submitter, proof_hash)
    }

    pub fn approve_submission(&mut self, quest_id: QuestId, submitter: Address, verifier: Address) -> (r:
        Result<(), Error>)
        requires
            old(self)@.wf(),
        ensures
            final(self)@.wf(),
            claims_monotone(old(self)@, final(self)@),
            outcome_is(
                r,
                old(self)@,
                final(self)@,
                gated(
                    old(self)@,
                    submission::approve_step(old(self)@, quest_id, submitter, verifier),
                ),
            ),
    {
        security::require_not_paused(&self.storage)?;
        submission::approve_submission(&mut self.storage, quest_id, submitter, verifier)
    }

    /// Approves every item of `submissions` for `verifier`, or none of them.
    pub fn approve_submissions_batch(
        &mut self,
        verifier: Address,
        submissions: &Vec<BatchApprovalInput>,
    ) -> (r: Result<(), Error>)
        requires
            old(self)@.wf(),
        ensures
            final(self)@.wf(),
            claims_monotone(old(self)@, final(self)@),
            outcome_is(
                r,
                old(self)@,
                final(self)@,
                gated(
                    old(self)@,
                    submission::approve_batch_step(old(self)@, verifier, submissions@),
                ),
            ),
    {
        security::require_not_paused(&self.storage)?;
        proof {
            submission::lemma_approve_items_keep_quests(self@, verifier, submissions@);
        }
        submission::approve_submissions_batch(&mut self.storage, verifier, submissions)
    }

    /// Pays an approved submission. `holding_balance` is the marketplace's
    /// balance in the reward token; `transferred` whether the transfer of
    /// the reward to the submitter went through.
    pub fn claim_reward(
        &mut self,
        quest_id: QuestId,
        submitter: Address,
        holding_balance: i128,
        transferred: bool,
    ) -> (r: Result<(), Error>)
        requires
            old(self)@.wf(),
        ensures
            final(self)@.wf(),
            claims_monotone(old(self)@, final(self)@),
            outcome_is(
                r,
                old(self)@,
                final(self)@,
                gated(
                    old(self)@,
                    submission::claim_step(
                        old(self)@,
                        quest_id,
                        submitter,
                        holding_balance,
                        transferred,
                    ),
                ),
            ),
    {
        security::require_not_paused(&self.storage)?;
        submission::claim_reward(&mut self.storage, quest_id, submitter, holding_balance, transferred)
    }

    /// Deposits into a quest's escrow; `transferred` is whether the
    /// depositor's transfer of `amount` went through.
    pub fn deposit_escrow(
        &mut self,
        now: u64,
        quest_id: QuestId,
        depositor: Address,
        token: Address,
        amount: i128,
        transferred: bool,
    ) -> (r: Result<(), Error>)
        requires
            old(self)@.wf(),
        ensures
            final(self)@.wf(),
            claims_monotone(old(self)@, final(self)@),
            outcome_is(
                r,
                old(self)@,
                final(self)@,
                gated(
                    old(self)@,
                    escrow::deposit_step(
                        old(self)@,
                        now,
                        quest_id,
                        depositor,
                        token,
                        amount,
                        transferred,
                    ),
                ),
            ),
    {
        security::require_not_paused(&self.storage)?;
        escrow::deposit(&mut self.storage, now, quest_id, depositor, token, amount, transferred)
    }

    /// Cancels a quest; returns the amount refunded to its creator.
    pub fn cancel_quest(&mut self, quest_id: QuestId, creator: Address, transferred: bool) -> (r:
        Result<i128, Error>)
        requires
            old(self)@.wf(),
        ensures
            final(self)@.wf(),
            claims_monotone(old(self)@, final(self)@),
            outcome_with_amount_is(
                r,
                old(self)@,
                final(self)@,
                gated_with_amount(
                    old(self)@,
                    escrow::cancel_step(old(self)@, quest_id, creator, transferred),
                ),
            ),
    {
        security::require_not_paused(&self.storage)?;
        escrow::cancel_quest(&mut self.storage, quest_id, creator, transferred)
    }

    /// Expires a quest past its deadline; returns the amount refunded.
    pub fn expire_quest(&mut self, now: u64, quest_id: QuestId, creator: Address, transferred: bool) -> (r:
        Result<i128, Error>)
        requires
            old(self)@.wf(),
        ensures
            final(self)@.wf(),
            claims_monotone(old(self)@, final(self)@),
            outcome_with_amount_is(
                r,
                old(self)@,
                final(self)@,
                gated_with_amount(
                    old(self)@,
                    escrow::expire_step(old(self)@, now, quest_id, creator, transferred),
                ),
            ),
    {
        security::require_not_paused(&self.storage)?;
        escrow::expire_quest(&mut self.storage, now, quest_id, creator, transferred)
    }

    /// Withdraws what a finished quest's escrow still holds; returns it.
    pub fn withdraw_unclaimed(&mut self, quest_id: QuestId, creator: Address, transferred: bool) -> (r:
        Result<i128, Error>)
        requires
            old(self)@.wf(),
        ensures
            final(self)@.wf(),
            claims_monotone(old(self)@, final(self)@),
            outcome_with_amount_is(
                r,
                old(self)@,
                final(self)@,
                gated_with_amount(
                    old(self)@,
                    escrow::withdraw_step(old(self)@, quest_id, creator, transferred),
                ),
            ),
    {
        security::require_not_paused(&self.storage)?;
        escrow::withdraw_unclaimed(&mut self.storage, quest_id, creator, transferred)
    }

    /// The available escrow of a quest; reading changes nothing.
    pub fn get_escrow_balance(&self, quest_id: QuestId) -> (r: Result<i128, Error>)
        requires
            self@.wf(),
        ensures
            r == escrow::balance_of(self@, quest_id),
    {
        escrow::get_balance(&self.storage, quest_id)
    }

    /// The escrow record of a quest; reading changes nothing.
    pub fn get_escrow_info(&self, quest_id: QuestId) -> (r: Result<EscrowInfo, Error>)
        ensures
            r == (if self@.escrows.contains_key(quest_id) {
                Ok::<EscrowInfo, Error>(self@.escrows[quest_id])
            } else {
                Err(Error::EscrowNotFound)
            }),
    {
        escrow::get_info(&self.storage, quest_id)
    }

    pub fn get_quest(&self, id: QuestId) -> (r: Result<Quest, Error>)
        ensures
            r == (if self@.quests.contains_key(id) {
                Ok::<Quest, Error>(self@.quests[id])
            } else {
                Err(Error::QuestNotFound)
            }),
    {
        self.storage.get_quest(id)
    }

    pub fn get_submission(&self, quest_id: QuestId, submitter: Address) -> (r: Result<
        Submission,
        Error,
    >)
        ensures
            r == (if self@.submissions.contains_key((quest_id, submitter)) {
                Ok::<Submission, Error>(self@.submissions[(quest_id, submitter)])
            } else {
                Err(Error::SubmissionNotFound)
            }),
    {
        self.storage.get_submission(quest_id, submitter)
    }

    /// Quests with the given status, `limit` of them from position `offset`.
    pub fn get_quests_by_status(&self, status: QuestStatus, offset: u32, limit: u32) -> (r: Vec<
        Quest,
    >)
        ensures
            r@ == quest::page(
                quest::selected(self@, self@.quest_ids, quest::QuestFilter::Status(status)),
                offset as int,
                limit as int,
            ),
    {
        quest::get_quests_by_status(&self.storage, status, offset, limit)
    }

    pub fn get_active_quests(&self, offset: u32, limit: u32) -> (r: Vec<Quest>)
        ensures
            r@ == quest::page(
                quest::selected(
                    self@,
                    self@.quest_ids,
                    quest::QuestFilter::Status(QuestStatus::Active),
                ),
                offset as int,
                limit as int,
            ),
    {
        quest::get_active_quests(&self.storage, offset, limit)
    }

    pub fn get_quests_by_creator(&self, creator: Address, offset: u32, limit: u32) -> (r: Vec<
        Quest,
    >)
        ensures
            r@ == quest::page(
                quest::selected(self@, self@.quest_ids, quest::QuestFilter::Creator(creator)),
                offset as int,
                limit as int,
            ),
    {
        quest::get_quests_by_creator(&self.storage, creator, offset, limit)
    }

    pub fn get_quests_by_reward_range(
        &self,
        min_reward: i128,
        max_reward: i128,
        offset: u32,
        limit: u32,
    ) -> (r: Vec<Quest>)
        ensures
            r@ == quest::page(
                quest::selected(
                    self@,
                    self@.quest_ids,
                    quest::QuestFilter::RewardRange(min_reward, max_reward),
                ),
                offset as int,
                limit as int,
            ),
    {
        quest::get_quests_by_reward_range(&self.storage, min_reward, max_reward, offset, limit)
    }

    /// A user's reputation, fresh for a user with none recorded.
    pub fn get_user_stats(&self, user: Address) -> (r: UserStats)
        ensures
            self@.user_stats.contains_key(user) ==> r.same_as(self@.user_stats[user]),
            !self@.user_stats.contains_key(user) ==> r.is_fresh(),
    {
        self.storage.get_user_stats_or_default(user)
    }

    pub fn is_admin(&self, address: Address) -> (r: bool)
        ensures
            r == self@.admins.contains(address),
    {
        self.storage.is_admin(address)
    }

    pub fn is_paused(&self) -> (r: bool)
        ensures
            r == self@.paused,
    {
        security::is_paused(&self.storage)
    }

    pub fn add_admin(&mut self, caller: Address, new_admin: Address) -> (r: Result<(), Error>)
        requires
            old(self)@.wf(),
        ensures
            final(self)@.wf(),
            claims_monotone(old(self)@, final(self)@),
            outcome_is(
                r,
                old(self)@,
                final(self)@,
                gated(
                    old(self)@,
                    security::admin_step(
                        old(self)@,
                        caller,
                        StorageView { admins: old(self)@.admins.insert(new_admin), ..old(self)@ },
                    ),
                ),
            ),
    {
        security::require_not_paused(&self.storage)?;
        security::add_admin(&mut self.storage, caller, new_admin)
    }

    pub fn remove_admin(&mut self, caller: Address, admin_to_remove: Address) -> (r: Result<
        (),
        Error,
    >)
        requires
            old(self)@.wf(),
        ensures
            final(self)@.wf(),
            claims_monotone(old(self)@, final(self)@),
            outcome_is(
                r,
                old(self)@,
                final(self)@,
                gated(
                    old(self)@,
                    security::admin_step(
                        old(self)@,
                        caller,
                        StorageView {
                            admins: old(self)@.admins.remove(admin_to_remove),
                            ..old(self)@
                        },
                    ),
                ),
            ),
    {
        security::require_not_paused(&self.storage)?;
        security::remove_admin(&mut self.storage, caller, admin_to_remove)
    }

    pub fn emergency_pause(&mut self, caller: Address) -> (r: Result<(), Error>)
        requires
            old(self)@.wf(),
        ensures
            final(self)@.wf(),
            claims_monotone(old(self)@, final(self)@),
            outcome_is(r, old(self)@, final(self)@, security::pause_step(old(self)@, caller)),
    {
        security::emergency_pause(&mut self.storage, caller)
    }

    pub fn emergency_approve_unpause(&mut self, now: u64, caller: Address) -> (r: Result<(), Error>)
        requires
            old(self)@.wf(),
        ensures
            final(self)@.wf(),
            claims_monotone(old(self)@, final(self)@),
            outcome_is(
                r,
                old(self)@,
                final(self)@,
                security::approve_unpause_step(old(self)@, now, caller),
            ),
    {
        security::emergency_approve_unpause(&mut self.storage, now, caller)
    }

    pub fn emergency_unpause(&mut self, now: u64, caller: Address) -> (r: Result<(), Error>)
        requires
            old(self)@.wf(),
        ensures
            final(self)@.wf(),
            claims_monotone(old(self)@, final(self)@),
            outcome_is(r, old(self)@, final(self)@, security::unpause_step(old(self)@, now, caller)),
    {
        security::emergency_unpause(&mut self.storage, now, caller)
    }

    /// Checks a rescue transfer while paused; the amount must first be a
    /// valid reward amount.
    pub fn emergency_withdraw(
        &self,
        caller: Address,
        amount: i128,
        holding_balance: i128,
        transferred: bool,
    ) -> (r: Result<(), Error>)
        ensures
            r == (match crate::validation::reward_amount_check(amount as int) {
                Err(e) => Err(e),
                Ok(_) => security::withdraw_check(
                    self@,
                    caller,
                    amount,
                    holding_balance,
                    transferred,
                ),
            }),
    {
        crate::validation::validate_reward_amount(amount)?;
        security::emergency_withdraw(&self.storage, caller, amount, holding_balance, transferred)
    }

    pub fn set_unpause_threshold(&mut self, caller: Address, threshold: u32) -> (r: Result<(), Error>)
        requires
            old(self)@.wf(),
        ensures
            final(self)@.wf(),
            claims_monotone(old(self)@, final(self)@),
            outcome_is(
                r,
                old(self)@,
                final(self)@,
                security::admin_step(
                    old(self)@,
                    caller,
                    StorageView { unpause_threshold: threshold, ..old(self)@ },
                ),
            ),
    {
        security::set_unpause_threshold(&mut self.storage, caller, threshold)
    }

    pub fn set_unpause_timelock(&mut self, caller: Address, seconds: u64) -> (r: Result<(), Error>)
        requires
            old(self)@.wf(),
        ensures
            final(self)@.wf(),
            claims_monotone(old(self)@, final(self)@),
            outcome_is(
                r,
                old(self)@,
                final(self)@,
                security::admin_step(
                    old(self)@,
                    caller,
                    StorageView { unpause_timelock_seconds: seconds, ..old(self)@ },
                ),
            ),
    {
        security::set_unpause_timelock(&mut self.storage, caller, seconds)
    }
}

} // verus!
