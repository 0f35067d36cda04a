use earn_quest::types::{QuestStatus, SubmissionStatus};
use earn_quest::validation;

#[test]
fn test_validate_reward_amount_valid() {
    let result = validation::validate_reward_amount(100);
    assert!(result.is_ok());
}

#[test]
fn test_validate_reward_amount_minimum_valid() {
    let result = validation::validate_reward_amount(1);
    assert!(result.is_ok());
}

#[test]
fn test_validate_reward_amount_zero_rejected() {
    let result = validation::validate_reward_amount(0);
    assert!(result.is_err());
}

#[test]
fn test_validate_reward_amount_negative_rejected() {
    let result = validation::validate_reward_amount(-100);
    assert!(result.is_err());
}

#[test]
fn test_validate_reward_amount_too_large_rejected() {
    let result = validation::validate_reward_amount(validation::MAX_REWARD_AMOUNT + 1);
    assert!(result.is_err());
}

#[test]
fn test_validate_reward_amount_at_max_valid() {
    let result = validation::validate_reward_amount(validation::MAX_REWARD_AMOUNT);
    assert!(result.is_ok());
}

#[test]
fn test_validate_array_length_valid() {
    let result = validation::validate_array_length(5, 10);
    assert!(result.is_ok());
}

#[test]
fn test_validate_array_length_at_max_valid() {
    let result = validation::validate_array_length(10, 10);
    assert!(result.is_ok());
}

#[test]
fn test_validate_array_length_exceeds_max_rejected() {
    let result = validation::validate_array_length(11, 10);
    assert!(result.is_err());
}

#[test]
fn test_validate_array_length_zero_valid() {
    let result = validation::validate_array_length(0, 10);
    assert!(result.is_ok());
}

#[test]
fn test_validate_badge_count_valid() {
    let result = validation::validate_badge_count(0);
    assert!(result.is_ok());
}

#[test]
fn test_validate_badge_count_at_max_rejected() {
    let result = validation::validate_badge_count(validation::MAX_BADGES_COUNT);
    assert!(result.is_err());
}

#[test]
fn test_validate_badge_count_below_max_valid() {
    let result = validation::validate_badge_count(validation::MAX_BADGES_COUNT - 1);
    assert!(result.is_ok());
}

#[test]
fn test_quest_status_active_to_paused_valid() {
    let result = validation::validate_quest_status_transition(
        &QuestStatus::Active,
        &QuestStatus::Paused,
    );
    assert!(result.is_ok());
}

#[test]
fn test_quest_status_active_to_completed_valid() {
    let result = validation::validate_quest_status_transition(
        &QuestStatus::Active,
        &QuestStatus::Completed,
    );
    assert!(result.is_ok());
}

#[test]
fn test_quest_status_active_to_expired_valid() {
    let result = validation::validate_quest_status_transition(
        &QuestStatus::Active,
        &QuestStatus::Expired,
    );
    assert!(result.is_ok());
}

#[test]
fn test_quest_status_paused_to_active_valid() {
    let result = validation::validate_quest_status_transition(
        &QuestStatus::Paused,
        &QuestStatus::Active,
    );
    assert!(result.is_ok());
}

#[test]
fn test_quest_status_paused_to_expired_valid() {
    let result = validation::validate_quest_status_transition(
        &QuestStatus::Paused,
        &QuestStatus::Expired,
    );
    assert!(result.is_ok());
}

#[test]
fn test_quest_status_completed_to_active_rejected() {
    let result = validation::validate_quest_status_transition(
        &QuestStatus::Completed,
        &QuestStatus::Active,
    );
    assert!(result.is_err());
}

#[test]
fn test_quest_status_expired_to_active_rejected() {
    let result = validation::validate_quest_status_transition(
        &QuestStatus::Expired,
        &QuestStatus::Active,
    );
    assert!(result.is_err());
}

#[test]
fn test_quest_status_completed_to_paused_rejected() {
    let result = validation::validate_quest_status_transition(
        &QuestStatus::Completed,
        &QuestStatus::Paused,
    );
    assert!(result.is_err());
}

#[test]
fn test_quest_status_same_to_same_rejected() {
    let result = validation::validate_quest_status_transition(
        &QuestStatus::Active,
        &QuestStatus::Active,
    );
    assert!(result.is_err());
}

#[test]
fn test_submission_status_pending_to_approved_valid() {
    let result = validation::validate_submission_status_transition(
        &SubmissionStatus::Pending,
        &SubmissionStatus::Approved,
    );
    assert!(result.is_ok());
}

#[test]
fn test_submission_status_pending_to_rejected_valid() {
    let result = validation::validate_submission_status_transition(
        &SubmissionStatus::Pending,
        &SubmissionStatus::Rejected,
    );
    assert!(result.is_ok());
}

#[test]
fn test_submission_status_approved_to_paid_valid() {
    let result = validation::validate_submission_status_transition(
        &SubmissionStatus::Approved,
        &SubmissionStatus::Paid,
    );
    assert!(result.is_ok());
}

#[test]
fn test_submission_status_rejected_to_approved_rejected() {
    let result = validation::validate_submission_status_transition(
        &SubmissionStatus::Rejected,
        &SubmissionStatus::Approved,
    );
    assert!(result.is_err());
}

#[test]
fn test_submission_status_paid_to_pending_rejected() {
    let result = validation::validate_submission_status_transition(
        &SubmissionStatus::Paid,
        &SubmissionStatus::Pending,
    );
    assert!(result.is_err());
}

#[test]
fn test_submission_status_pending_to_paid_rejected() {
    // Cannot go directly from Pending to Paid (must be Approved first)
    let result = validation::validate_submission_status_transition(
        &SubmissionStatus::Pending,
        &SubmissionStatus::Paid,
    );
    assert!(result.is_err());
}

#[test]
fn test_submission_status_approved_to_rejected_rejected() {
    // Cannot reject an already approved submission
    let result = validation::validate_submission_status_transition(
        &SubmissionStatus::Approved,
        &SubmissionStatus::Rejected,
    );
    assert!(result.is_err());
}

#[test]
fn test_validate_quest_is_active_when_active() {
    let result = validation::validate_quest_is_active(&QuestStatus::Active);
    assert!(result.is_ok());
}

#[test]
fn test_validate_quest_is_active_when_paused_rejected() {
    let result = validation::validate_quest_is_active(&QuestStatus::Paused);
    assert!(result.is_err());
}

#[test]
fn test_validate_quest_is_active_when_completed_rejected() {
    let result = validation::validate_quest_is_active(&QuestStatus::Completed);
    assert!(result.is_err());
}

#[test]
fn test_validate_quest_is_active_when_expired_rejected() {
    let result = validation::validate_quest_is_active(&QuestStatus::Expired);
    assert!(result.is_err());
}

#[test]
fn test_validate_quest_claims_limit_valid() {
    let result = validation::validate_quest_claims_limit(0);
    assert!(result.is_ok());
}

#[test]
fn test_validate_quest_claims_limit_at_max_rejected() {
    let result = validation::validate_quest_claims_limit(validation::MAX_QUEST_CLAIMS);
    assert!(result.is_err());
}

#[test]
fn test_validate_quest_claims_limit_below_max_valid() {
    let result = validation::validate_quest_claims_limit(validation::MAX_QUEST_CLAIMS - 1);
    assert!(result.is_ok());
}
