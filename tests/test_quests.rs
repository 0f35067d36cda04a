use earn_quest::contract::EarnQuestContract;
use earn_quest::errors::Error;
use earn_quest::quest;
use earn_quest::storage::Storage;
use earn_quest::submission;
use earn_quest::types::{Address, QuestStatus, SubmissionStatus};
use earn_quest::validation::MAX_REWARD_AMOUNT;

const ADMIN: Address = 1;
const CREATOR: Address = 2;
const VERIFIER: Address = 3;
const SUBMITTER: Address = 4;
const REWARD_ASSET: Address = 100;
const PROOF: [u8; 32] = [9u8; 32];

fn setup_with_quest(now: u64) -> EarnQuestContract {
    let mut c = EarnQuestContract::new(ADMIN);
    c.register_quest(now, 1, CREATOR, REWARD_ASSET, 1000, VERIFIER, now + 86400).unwrap();
    c
}

#[test]
fn test_register_quest_success() {
    let c = setup_with_quest(0);
    let quest = c.get_quest(1).unwrap();
    assert_eq!(quest.id, 1);
    assert_eq!(quest.creator, CREATOR);
    assert_eq!(quest.reward_asset, REWARD_ASSET);
    assert_eq!(quest.reward_amount, 1000);
    assert_eq!(quest.verifier, VERIFIER);
    assert_eq!(quest.deadline, 86400);
    assert_eq!(quest.status, QuestStatus::Active);
    assert_eq!(quest.total_claims, 0);
}

#[test]
fn test_register_quest_duplicate_fails() {
    let mut c = setup_with_quest(0);
    let r = c.register_quest(0, 1, CREATOR, REWARD_ASSET, 1000, VERIFIER, 86400);
    assert_eq!(r, Err(Error::QuestAlreadyExists));
}

#[test]
fn test_register_quest_invalid_reward_fails() {
    let mut c = EarnQuestContract::new(ADMIN);
    let r = c.register_quest(0, 1, CREATOR, REWARD_ASSET, 0, VERIFIER, 86400);
    assert_eq!(r, Err(Error::InvalidRewardAmount));
}

#[test]
fn reward_and_deadline_boundaries() {
    let now = 5000;
    let mut c = EarnQuestContract::new(ADMIN);
    assert_eq!(
        c.register_quest(now, 1, CREATOR, REWARD_ASSET, 0, VERIFIER, now + 10),
        Err(Error::InvalidRewardAmount)
    );
    assert_eq!(
        c.register_quest(now, 1, CREATOR, REWARD_ASSET, MAX_REWARD_AMOUNT + 1, VERIFIER, now + 10),
        Err(Error::AmountTooLarge)
    );
    c.register_quest(now, 1, CREATOR, REWARD_ASSET, MAX_REWARD_AMOUNT, VERIFIER, now + 10).unwrap();
    assert_eq!(
        c.register_quest(now, 2, CREATOR, REWARD_ASSET, 10, VERIFIER, now),
        Err(Error::DeadlineInPast)
    );
    c.register_quest(now, 2, CREATOR, REWARD_ASSET, 10, VERIFIER, now + 1).unwrap();
}

#[test]
fn creator_cannot_verify_own_quest() {
    let mut c = EarnQuestContract::new(ADMIN);
    let r = c.register_quest(0, 1, CREATOR, REWARD_ASSET, 10, CREATOR, 100);
    assert_eq!(r, Err(Error::InvalidAddress));
}

#[test]
fn test_pause_quest() {
    let mut c = setup_with_quest(0);
    c.update_quest_status(1, CREATOR, QuestStatus::Paused).unwrap();
    assert_eq!(c.get_quest(1).unwrap().status, QuestStatus::Paused);
}

#[test]
fn test_resume_quest() {
    let mut c = setup_with_quest(0);
    c.update_quest_status(1, CREATOR, QuestStatus::Paused).unwrap();
    c.update_quest_status(1, CREATOR, QuestStatus::Active).unwrap();
    assert_eq!(c.get_quest(1).unwrap().status, QuestStatus::Active);
}

#[test]
fn test_complete_quest() {
    let mut c = setup_with_quest(0);
    c.update_quest_status(1, CREATOR, QuestStatus::Completed).unwrap();
    assert_eq!(c.get_quest(1).unwrap().status, QuestStatus::Completed);
}

#[test]
fn test_unauthorized_status_update() {
    let mut c = setup_with_quest(0);
    let result = c.update_quest_status(1, 99, QuestStatus::Paused);
    assert_eq!(result, Err(Error::Unauthorized));
}

#[test]
fn test_invalid_status_transition() {
    let mut c = setup_with_quest(0);
    c.update_quest_status(1, CREATOR, QuestStatus::Completed).unwrap();
    let result = c.update_quest_status(1, CREATOR, QuestStatus::Paused);
    assert_eq!(result, Err(Error::InvalidStatusTransition));
}

#[test]
fn self_transition_rejected() {
    let mut c = setup_with_quest(0);
    let result = c.update_quest_status(1, CREATOR, QuestStatus::Active);
    assert_eq!(result, Err(Error::InvalidStatusTransition));
}

#[test]
fn test_submit_proof_success() {
    let mut c = setup_with_quest(0);
    c.submit_proof(50, 1, SUBMITTER, &PROOF).unwrap();
    let s = c.get_submission(1, SUBMITTER).unwrap();
    assert_eq!(s.quest_id, 1);
    assert_eq!(s.submitter, SUBMITTER);
    assert_eq!(s.proof_hash, PROOF);
    assert_eq!(s.status, SubmissionStatus::Pending);
    assert_eq!(s.timestamp, 50);
}

#[test]
fn duplicate_submission_rejected() {
    let mut c = setup_with_quest(0);
    c.submit_proof(0, 1, SUBMITTER, &PROOF).unwrap();
    assert_eq!(c.submit_proof(0, 1, SUBMITTER, &[3u8; 32]), Err(Error::DuplicateSubmission));
    assert_eq!(c.get_submission(1, SUBMITTER).unwrap().proof_hash, PROOF);
}

#[test]
fn zero_proof_hash_rejected() {
    let mut c = setup_with_quest(0);
    assert_eq!(c.submit_proof(0, 1, SUBMITTER, &[0u8; 32]), Err(Error::InvalidProofHash));
    let mut almost_zero = [0u8; 32];
    almost_zero[31] = 1;
    c.submit_proof(0, 1, SUBMITTER, &almost_zero).unwrap();
}

#[test]
fn submission_checks_quest_state() {
    let mut c = setup_with_quest(0);
    assert_eq!(c.submit_proof(0, 2, SUBMITTER, &PROOF), Err(Error::QuestNotFound));
    assert_eq!(c.submit_proof(86400, 1, SUBMITTER, &PROOF), Err(Error::QuestExpired));
    c.update_quest_status(1, CREATOR, QuestStatus::Paused).unwrap();
    assert_eq!(c.submit_proof(0, 1, SUBMITTER, &PROOF), Err(Error::QuestNotActive));
}

#[test]
fn approval_and_claim_rules() {
    let mut c = setup_with_quest(0);
    assert_eq!(c.approve_submission(1, SUBMITTER, VERIFIER), Err(Error::SubmissionNotFound));
    c.submit_proof(0, 1, SUBMITTER, &PROOF).unwrap();
    assert_eq!(c.claim_reward(1, SUBMITTER, 5000, true), Err(Error::InvalidStatusTransition));
    assert_eq!(c.approve_submission(1, SUBMITTER, CREATOR), Err(Error::Unauthorized));
    c.approve_submission(1, SUBMITTER, VERIFIER).unwrap();
    assert_eq!(
        c.approve_submission(1, SUBMITTER, VERIFIER),
        Err(Error::InvalidStatusTransition)
    );
    assert_eq!(c.claim_reward(1, SUBMITTER, 5000, false), Err(Error::TransferFailed));
    assert_eq!(c.get_quest(1).unwrap().total_claims, 0);
    c.claim_reward(1, SUBMITTER, 5000, true).unwrap();
    assert_eq!(c.get_quest(1).unwrap().total_claims, 1);
    assert_eq!(c.claim_reward(1, SUBMITTER, 5000, true), Err(Error::AlreadyClaimed));
    assert_eq!(c.get_quest(1).unwrap().total_claims, 1);
}

#[test]
fn module_functions_work_on_storage() {
    let mut st = Storage::new();
    quest::register_quest(&mut st, 0, 1, CREATOR, REWARD_ASSET, 10, VERIFIER, 100).unwrap();
    submission::submit_proof(&mut st, 0, 1, SUBMITTER, &PROOF).unwrap();
    assert_eq!(submission::validate_claim(&st, 1, SUBMITTER), Err(Error::InvalidStatusTransition));
    submission::approve_submission(&mut st, 1, SUBMITTER, VERIFIER).unwrap();
    assert_eq!(submission::validate_claim(&st, 1, SUBMITTER), Ok(()));
    assert_eq!(st.delete_quest(1), Err(Error::QuestStillActive));
    quest::update_quest_status(&mut st, 1, CREATOR, QuestStatus::Completed).unwrap();
    st.delete_quest(1).unwrap();
    assert!(!st.has_quest(1));
}
