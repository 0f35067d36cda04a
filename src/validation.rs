//! Input limits and the status transition tables.
use vstd::prelude::*;

use crate::errors::Error;
use crate::types::{Address, QuestStatus, SubmissionStatus};

verus! {

/// Smallest accepted reward amount.
pub const MIN_REWARD_AMOUNT: i128 = 1;

/// Largest accepted reward amount.
pub const MAX_REWARD_AMOUNT: i128 = 1_000_000_000_000_000;

/// Largest number of badges a user can hold.
pub const MAX_BADGES_COUNT: u32 = 50;

/// Largest number of claims per quest.
pub const MAX_QUEST_CLAIMS: u32 = 10_000;

/// Largest number of quests registered by one batch call.
pub const MAX_BATCH_QUEST_REGISTRATION: u32 = 50;

/// Largest number of submissions approved by one batch call.
pub const MAX_BATCH_APPROVALS: u32 = 50;

/// Completed, Expired and Cancelled admit no further transition.
pub open spec fn is_terminal(s: QuestStatus) -> bool {
    s == QuestStatus::Completed || s == QuestStatus::Expired || s == QuestStatus::Cancelled
}

/// The quest status machine: Active moves to any other state, Paused moves
/// back to Active or to Expired or Cancelled; nothing else, no self-loops.
pub open spec fn quest_transition_allowed(from: QuestStatus, to: QuestStatus) -> bool {
    match (from, to) {
        (QuestStatus::Active, QuestStatus::Paused) => true,
        (QuestStatus::Active, QuestStatus::Completed) => true,
        (QuestStatus::Active, QuestStatus::Expired) => true,
        (QuestStatus::Active, QuestStatus::Cancelled) => true,
        (QuestStatus::Paused, QuestStatus::Active) => true,
        (QuestStatus::Paused, QuestStatus::Expired) => true,
        (QuestStatus::Paused, QuestStatus::Cancelled) => true,
        _ => false,
    }
}

/// The submission status machine: Pending to Approved or Rejected, and
/// Approved to Paid.
pub open spec fn submission_transition_allowed(from: SubmissionStatus, to: SubmissionStatus) -> bool {
    match (from, to) {
        (SubmissionStatus::Pending, SubmissionStatus::Approved) => true,
        (SubmissionStatus::Pending, SubmissionStatus::Rejected) => true,
        (SubmissionStatus::Approved, SubmissionStatus::Paid) => true,
        _ => false,
    }
}

/// The verdict on a reward amount: it must lie in `(0, MAX_REWARD_AMOUNT]`.
pub open spec fn reward_amount_check(amount: int) -> Result<(), Error> {
    if amount <= 0 {
        Err(Error::InvalidRewardAmount)
    } else if amount > MAX_REWARD_AMOUNT {
        Err(Error::AmountTooLarge)
    } else {
        Ok(())
    }
}

/// Creator and verifier of a quest must be different identities.
pub fn validate_addresses_distinct(creator: Address, verifier: Address) -> (r: Result<(), Error>)
    ensures
        r == (if creator == verifier { Err(Error::InvalidAddress) } else { Ok::<(), Error>(()) }),
{
    if creator == verifier {
        return Err(Error::InvalidAddress);
    }
    Ok(())
}

pub fn validate_reward_amount(amount: i128) -> (r: Result<(), Error>)
    ensures
        r == reward_amount_check(amount as int),
{
    if amount <= 0 {
        return Err(Error::InvalidRewardAmount);
    }
    if amount > MAX_REWARD_AMOUNT {
        return Err(Error::AmountTooLarge);
    }
    Ok(())
}

/// A deadline must lie strictly after `now`.
pub fn validate_deadline(now: u64, deadline: u64) -> (r: Result<(), Error>)
    ensures
        r == (if deadline <= now { Err(Error::DeadlineInPast) } else { Ok::<(), Error>(()) }),
{
    if deadline <= now {
        return Err(Error::DeadlineInPast);
    }
    Ok(())
}

/// A quest is expired from its deadline on.
pub fn validate_quest_not_expired(now: u64, deadline: u64) -> (r: Result<(), Error>)
    ensures
        r == (if now >= deadline { Err(Error::QuestExpired) } else { Ok::<(), Error>(()) }),
{
    if now >= deadline {
        return Err(Error::QuestExpired);
    }
    Ok(())
}

pub fn validate_array_length(length: u32, max: u32) -> (r: Result<(), Error>)
    ensures
        r == (if length > max { Err(Error::ArrayTooLong) } else { Ok::<(), Error>(()) }),
{
    if length > max {
        return Err(Error::ArrayTooLong);
    }
    Ok(())
}

/// One more badge may be granted only below `MAX_BADGES_COUNT`.
pub fn validate_badge_count(current_count: u32) -> (r: Result<(), Error>)
    ensures
        r == (if current_count >= MAX_BADGES_COUNT {
            Err(Error::ArrayTooLong)
        } else {
            Ok::<(), Error>(())
        }),
{
    if current_count >= MAX_BADGES_COUNT {
        return Err(Error::ArrayTooLong);
    }
    Ok(())
}

pub fn is_quest_terminal(status: &QuestStatus) -> (r: bool)
    ensures
        r == is_terminal(*status),
{
    match status {
        QuestStatus::Completed | QuestStatus::Expired | QuestStatus::Cancelled => true,
        _ => false,
    }
}

pub fn validate_quest_status_transition(from: &QuestStatus, to: &QuestStatus) -> (r: Result<
    (),
    Error,
>)
    ensures
        r == (if quest_transition_allowed(*from, *to) {
            Ok::<(), Error>(())
        } else {
            Err(Error::InvalidStatusTransition)
        }),
{
    let valid = match (from, to) {
        (QuestStatus::Active, QuestStatus::Paused) => true,
        (QuestStatus::Active, QuestStatus::Completed) => true,
        (QuestStatus::Active, QuestStatus::Expired) => true,
        (QuestStatus::Active, QuestStatus::Cancelled) => true,
        (QuestStatus::Paused, QuestStatus::Active) => true,
        (QuestStatus::Paused, QuestStatus::Expired) => true,
        (QuestStatus::Paused, QuestStatus::Cancelled) => true,
        _ => false,
    };
    if !valid {
        return Err(Error::InvalidStatusTransition);
    }
    Ok(())
}

pub fn validate_submission_status_transition(
    from: &SubmissionStatus,
    to: &SubmissionStatus,
) -> (r: Result<(), Error>)
    ensures
        r == (if submission_transition_allowed(*from, *to) {
            Ok::<(), Error>(())
        } else {
            Err(Error::InvalidStatusTransition)
        }),
{
    let valid = match (from, to) {
        (SubmissionStatus::Pending, SubmissionStatus::Approved) => true,
        (SubmissionStatus::Pending, SubmissionStatus::Rejected) => true,
        (SubmissionStatus::Approved, SubmissionStatus::Paid) => true,
        _ => false,
    };
    if !valid {
        return Err(Error::InvalidStatusTransition);
    }
    Ok(())
}

/// Proofs are accepted only while a quest is Active.
pub fn validate_quest_is_active(status: &QuestStatus) -> (r: Result<(), Error>)
    ensures
        r == (if *status == QuestStatus::Active {
            Ok::<(), Error>(())
        } else {
            Err(Error::QuestNotActive)
        }),
{
    if *status != QuestStatus::Active {
        return Err(Error::QuestNotActive);
    }
    Ok(())
}

/// One more claim may be paid only below `MAX_QUEST_CLAIMS`.
pub fn validate_quest_claims_limit(total_claims: u32) -> (r: Result<(), Error>)
    ensures
        r == (if total_claims >= MAX_QUEST_CLAIMS {
            Err(Error::ArrayTooLong)
        } else {
            Ok::<(), Error>(())
        }),
{
    if total_claims >= MAX_QUEST_CLAIMS {
        return Err(Error::ArrayTooLong);
    }
    Ok(())
}

/// A registration batch holds between 1 and `MAX_BATCH_QUEST_REGISTRATION` items.
pub fn validate_batch_quest_size(length: u32) -> (r: Result<(), Error>)
    ensures
        r == (if length == 0 || length > MAX_BATCH_QUEST_REGISTRATION {
            Err(Error::ArrayTooLong)
        } else {
            Ok::<(), Error>(())
        }),
{
    if length == 0 {
        return Err(Error::ArrayTooLong);
    }
    if length > MAX_BATCH_QUEST_REGISTRATION {
        return Err(Error::ArrayTooLong);
    }
    Ok(())
}

/// An approval batch holds between 1 and `MAX_BATCH_APPROVALS` items.
pub fn validate_batch_approval_size(length: u32) -> (r: Result<(), Error>)
    ensures
        r == (if length == 0 || length > MAX_BATCH_APPROVALS {
            Err(Error::ArrayTooLong)
        } else {
            Ok::<(), Error>(())
        }),
{
    if length == 0 {
        return Err(Error::ArrayTooLong);
    }
    if length > MAX_BATCH_APPROVALS {
        return Err(Error::ArrayTooLong);
    }
    Ok(())
}

} // verus!
