//! Proof submission, approval and reward claims: the submission status
//! machine.
use vstd::prelude::*;

use crate::errors::Error;
use crate::escrow::{sufficient_check, validate_sufficient};
use crate::payout::{payout_step, transfer_reward_from_escrow};
use crate::storage::{outcome_is, Storage, StorageView};
use crate::types::{Address, BatchApprovalInput, Quest, QuestId, QuestStatus, Submission, SubmissionStatus};
use crate::validation::{
    submission_transition_allowed, validate_quest_claims_limit, validate_quest_is_active,
    validate_quest_not_expired, validate_submission_status_transition, MAX_BATCH_APPROVALS,
    MAX_QUEST_CLAIMS,
};

verus! {

/// The all-zero hash, which stands for no proof at all.
pub open spec fn is_zero_hash(h: Seq<u8>) -> bool {
    forall|i: int| 0 <= i < h.len() ==> h[i] == 0
}

/// A proof is accepted for an Active quest before its deadline, once per
/// submitter, and never as the all-zero hash.
pub open spec fn submit_step(
    s: StorageView,
    now: u64,
    quest_id: QuestId,
    submitter: Address,
    proof_hash: [u8; 32],
) -> Result<StorageView, Error> {
    if !s.quests.contains_key(quest_id) {
        Err(Error::QuestNotFound)
    } else if s.quests[quest_id].status != QuestStatus::Active {
        Err(Error::QuestNotActive)
    } else if now >= s.quests[quest_id].deadline {
        Err(Error::QuestExpired)
    } else if is_zero_hash(proof_hash@) {
        Err(Error::InvalidProofHash)
    } else if s.submissions.contains_key((quest_id, submitter)) {
        Err(Error::DuplicateSubmission)
    } else {
        Ok(
            s.with_submission(
                quest_id,
                submitter,
                Submission {
                    quest_id,
                    submitter,
                    proof_hash,
                    status: SubmissionStatus::Pending,
                    timestamp: now,
                },
            ),
        )
    }
}

/// The quest's verifier approves a Pending submission, provided the
/// quest's escrow, if it has one, can cover the reward.
pub open spec fn approve_step(
    s: StorageView,
    quest_id: QuestId,
    submitter: Address,
    verifier: Address,
) -> Result<StorageView, Error> {
    if !s.quests.contains_key(quest_id) {
        Err(Error::QuestNotFound)
    } else if verifier != s.quests[quest_id].verifier {
        Err(Error::Unauthorized)
    } else if !s.submissions.contains_key((quest_id, submitter)) {
        Err(Error::SubmissionNotFound)
    } else if !submission_transition_allowed(
        s.submissions[(quest_id, submitter)].status,
        SubmissionStatus::Approved,
    ) {
        Err(Error::InvalidStatusTransition)
    } else if s.escrows.contains_key(quest_id) && sufficient_check(
        s,
        quest_id,
        s.quests[quest_id].reward_amount as int,
    ) is Err {
        Err(sufficient_check(s, quest_id, s.quests[quest_id].reward_amount as int)->Err_0)
    } else {
        Ok(
            s.with_submission(
                quest_id,
                submitter,
                Submission {
                    status: SubmissionStatus::Approved,
                    ..s.submissions[(quest_id, submitter)]
                },
            ),
        )
    }
}

/// Approves the items in order, stopping at the first failure.
pub open spec fn approve_items(s: StorageView, verifier: Address, items: Seq<BatchApprovalInput>) -> Result<
    StorageView,
    Error,
>
    decreases items.len(),
{
    if items.len() == 0 {
        Ok(s)
    } else {
        match approve_step(s, items[0].quest_id, items[0].submitter, verifier) {
            Err(e) => Err(e),
            Ok(next) => approve_items(next, verifier, items.drop_first()),
        }
    }
}

/// A batch of 1 to `MAX_BATCH_APPROVALS` approvals is applied all or
/// nothing: the outcome is that of the first failing item, if any.
pub open spec fn approve_batch_step(s: StorageView, verifier: Address, items: Seq<BatchApprovalInput>) -> Result<
    StorageView,
    Error,
> {
    if items.len() == 0 || items.len() > MAX_BATCH_APPROVALS {
        Err(Error::ArrayTooLong)
    } else {
        approve_items(s, verifier, items)
    }
}

/// A claim needs an Approved (not yet Paid) submission and a quest below
/// its claim limit.
pub open spec fn claim_check(s: StorageView, quest_id: QuestId, submitter: Address) -> Result<
    (),
    Error,
> {
    if !s.quests.contains_key(quest_id) {
        Err(Error::QuestNotFound)
    } else if !s.submissions.contains_key((quest_id, submitter)) {
        Err(Error::SubmissionNotFound)
    } else if s.submissions[(quest_id, submitter)].status == SubmissionStatus::Paid {
        Err(Error::AlreadyClaimed)
    } else if !submission_transition_allowed(
        s.submissions[(quest_id, submitter)].status,
        SubmissionStatus::Paid,
    ) {
        Err(Error::InvalidStatusTransition)
    } else if s.quests[quest_id].total_claims >= MAX_QUEST_CLAIMS {
        Err(Error::ArrayTooLong)
    } else {
        Ok(())
    }
}

/// A claim pays the quest's reward to the submitter, marks the submission
/// Paid and counts one more claim on the quest.
pub open spec fn claim_step(
    s: StorageView,
    quest_id: QuestId,
    submitter: Address,
    holding_balance: i128,
    transferred: bool,
) -> Result<StorageView, Error> {
    match claim_check(s, quest_id, submitter) {
        Err(e) => Err(e),
        Ok(_) => {
            let quest = s.quests[quest_id];
            match payout_step(s, quest_id, quest.reward_amount, holding_balance, transferred) {
                Err(e) => Err(e),
                Ok(paid) => Ok(
                    paid.with_submission(
                        quest_id,
                        submitter,
                        Submission {
                            status: SubmissionStatus::Paid,
                            ..s.submissions[(quest_id, submitter)]
                        },
                    ).with_quest(
                        quest_id,
                        Quest { total_claims: (quest.total_claims + 1) as u32, ..quest },
                    ),
                ),
            }
        },
    }
}

/// A submission is paid at most once: after a successful claim, every
/// further claim for the same quest and submitter fails with
/// `AlreadyClaimed`, and the quest has counted exactly one more claim,
/// still within its limit.
pub proof fn lemma_claim_once(
    s: StorageView,
    quest_id: QuestId,
    submitter: Address,
    holding_balance: i128,
    transferred: bool,
    later_balance: i128,
    later_transferred: bool,
)
    requires
        s.wf(),
    ensures
        claim_step(s, quest_id, submitter, holding_balance, transferred) matches Ok(next) ==> {
            &&& claim_step(next, quest_id, submitter, later_balance, later_transferred) == Err::<
                StorageView,
                Error,
            >(Error::AlreadyClaimed)
            &&& next.quests[quest_id].total_claims == s.quests[quest_id].total_claims + 1
            &&& next.quests[quest_id].total_claims <= MAX_QUEST_CLAIMS
        },
{
}

/// One submission per quest and submitter: once a proof is recorded, any
/// other proof for the same pair is refused.
pub proof fn lemma_submit_once(
    s: StorageView,
    now: u64,
    quest_id: QuestId,
    submitter: Address,
    proof_hash: [u8; 32],
    later_now: u64,
    later_hash: [u8; 32],
)
    ensures
        submit_step(s, now, quest_id, submitter, proof_hash) is Ok ==> submit_step(
            submit_step(s, now, quest_id, submitter, proof_hash)->Ok_0,
            later_now,
            quest_id,
            submitter,
            later_hash,
        ) is Err,
{
}

/// Approvals leave every quest as it is.
pub proof fn lemma_approve_items_keep_quests(s: StorageView, verifier: Address, items: Seq<BatchApprovalInput>)
    ensures
        approve_items(s, verifier, items) matches Ok(next) ==> next.quests == s.quests,
    decreases items.len(),
{
    if items.len() > 0 {
        if let Ok(next) = approve_step(s, items[0].quest_id, items[0].submitter, verifier) {
            lemma_approve_items_keep_quests(next, verifier, items.drop_first());
        }
    }
}

fn is_zero_proof(proof_hash: &[u8; 32]) -> (r: bool)
    ensures
        r == is_zero_hash(proof_hash@),
{
    let mut i: usize = 0;
    while i < 32
        invariant
            0 <= i <= 32,
            proof_hash@.len() == 32,
            forall|j: int| 0 <= j < i ==> proof_hash@[j] == 0,
        decreases 32 - i,
    {
        if proof_hash[i] != 0 {
            return false;
        }
        i = i + 1;
    }
    true
}

/// Records a Pending submission of `proof_hash` at time `now`.
pub fn submit_proof(
    st: &mut Storage,
    now: u64,
    quest_id: QuestId,
    submitter: Address,
    proof_hash: &[u8; 32],
) -> (r: Result<(), Error>)
    requires
        old(st)@.wf(),
    ensures
        final(st)@.wf(),
        outcome_is(r, old(st)@, final(st)@, submit_step(old(st)@, now, quest_id, submitter, *proof_hash)),
{
    let quest = st.get_quest(quest_id)?;
    validate_quest_is_active(&quest.status)?;
    validate_quest_not_expired(now, quest.deadline)?;
    if is_zero_proof(proof_hash) {
        return Err(Error::InvalidProofHash);
    }
    if st.has_submission(quest_id, submitter) {
        return Err(Error::DuplicateSubmission);
    }
    let submission = Submission {
        quest_id,
        submitter,
        proof_hash: *proof_hash,
        status: SubmissionStatus::Pending,
        timestamp: now,
    };
    st.set_submission(quest_id, submitter, &submission);
    Ok(())
}

/// Approves a Pending submission on behalf of the quest's verifier.
pub fn approve_submission(
    st: &mut Storage,
    quest_id: QuestId,
    submitter: Address,
    verifier: Address,
) -> (r: Result<(), Error>)
    requires
        old(st)@.wf(),
    ensures
        final(st)@.wf(),
        outcome_is(r, old(st)@, final(st)@, approve_step(old(st)@, quest_id, submitter, verifier)),
{
    let quest = st.get_quest(quest_id)?;
    if verifier != quest.verifier {
        return Err(Error::Unauthorized);
    }
    let submission = st.get_submission(quest_id, submitter)?;
    validate_submission_status_transition(&submission.status, &SubmissionStatus::Approved)?;
    if st.has_escrow(quest_id) {
        validate_sufficient(st, quest_id, quest.reward_amount)?;
    }
    st.update_submission_status(quest_id, submitter, SubmissionStatus::Approved)?;
    Ok(())
}

/// Approves every item of `submissions` for `verifier`, or none of them.
pub fn approve_submissions_batch(
    st: &mut Storage,
    verifier: Address,
    submissions: &Vec<BatchApprovalInput>,
) -> (r: Result<(), Error>)
    requires
        old(st)@.wf(),
    ensures
        final(st)@.wf(),
        outcome_is(r, old(st)@, final(st)@, approve_batch_step(old(st)@, verifier, submissions@)),
{
    let len = submissions.len();
    if len == 0 || len > MAX_BATCH_APPROVALS as usize {
        return Err(Error::ArrayTooLong);
    }
    let mut work = st.snapshot();
    let mut failure: Option<Error> = None;
    let mut i: usize = 0;
    assert(submissions@.subrange(0, len as int) =~= submissions@);
    while i < len && failure.is_none()
        invariant
            len == submissions@.len(),
            0 <= i <= len,
            work@.wf(),
            failure is None ==> approve_items(old(st)@, verifier, submissions@) == approve_items(
                work@,
                verifier,
                submissions@.subrange(i as int, len as int),
            ),
            failure matches Some(e) ==> approve_items(old(st)@, verifier, submissions@) == Err::<
                StorageView,
                Error,
            >(e),
        decreases len - i + (if failure is None { 1int } else { 0int }),
    {
        let item = submissions[i];
        let ghost rest = submissions@.subrange(i as int, len as int);
        assert(rest.drop_first() =~= submissions@.subrange(i + 1, len as int));
        assert(rest[0] == item);
        match approve_submission(&mut work, item.quest_id, item.submitter, verifier) {
            Err(e) => {
                failure = Some(e);
            },
            Ok(()) => {
                i = i + 1;
            },
        }
    }
    if let Some(e) = failure {
        return Err(e);
    }
    assert(submissions@.subrange(len as int, len as int) =~= Seq::<BatchApprovalInput>::empty());
    *st = work;
    Ok(())
}

/// Checks that the submission may be paid now.
pub fn validate_claim(st: &Storage, quest_id: QuestId, submitter: Address) -> (r: Result<(), Error>)
    ensures
        r == claim_check(st@, quest_id, submitter),
{
    let quest = st.get_quest(quest_id)?;
    let submission = st.get_submission(quest_id, submitter)?;
    if submission.status == SubmissionStatus::Paid {
        return Err(Error::AlreadyClaimed);
    }
    validate_submission_status_transition(&submission.status, &SubmissionStatus::Paid)?;
    validate_quest_claims_limit(quest.total_claims)?;
    Ok(())
}

/// Pays an approved submission its reward.
pub fn claim_reward(
    st: &mut Storage,
    quest_id: QuestId,
    submitter: Address,
    holding_balance: i128,
    transferred: bool,
) -> (r: Result<(), Error>)
    requires
        old(st)@.wf(),
    ensures
        final(st)@.wf(),
        outcome_is(
            r,
            old(st)@,
            final(st)@,
            claim_step(old(st)@, quest_id, submitter, holding_balance, transferred),
        ),
{
    validate_claim(st, quest_id, submitter)?;
    let quest = st.get_quest(quest_id)?;
    transfer_reward_from_escrow(st, quest_id, quest.reward_amount, holding_balance, transferred)?;
    st.update_submission_status(quest_id, submitter, SubmissionStatus::Paid)?;
    st.increment_quest_claims(quest_id)?;
    Ok(())
}

} // verus!
