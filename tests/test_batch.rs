use earn_quest::contract::EarnQuestContract;
use earn_quest::errors::Error;
use earn_quest::types::{
    Address, BatchApprovalInput, BatchQuestInput, QuestId, QuestStatus, SubmissionStatus,
};

const ADMIN: Address = 1;
const CREATOR: Address = 2;
const VERIFIER: Address = 3;
const OTHER_VERIFIER: Address = 4;
const TOKEN: Address = 100;
/// The marketplace's own balance in the reward token.
const HOLDING: i128 = 100_000;
const PROOF: [u8; 32] = [1u8; 32];

fn make_quest_input(id: QuestId, reward_amount: i128, deadline: u64) -> BatchQuestInput {
    BatchQuestInput {
        id,
        reward_asset: TOKEN,
        reward_amount,
        verifier: VERIFIER,
        deadline,
    }
}

fn make_approval_input(quest_id: QuestId, submitter: Address) -> BatchApprovalInput {
    BatchApprovalInput { quest_id, submitter }
}

#[test]
fn test_register_quests_batch_success() {
    let mut c = EarnQuestContract::new(ADMIN);
    let deadline = 10000u64;
    let quests = vec![
        make_quest_input(1, 100, deadline),
        make_quest_input(2, 200, deadline),
        make_quest_input(3, 300, deadline),
    ];
    c.register_quests_batch(0, CREATOR, &quests).unwrap();
    for (id, reward) in [(1, 100), (2, 200), (3, 300)] {
        let q = c.get_quest(id).unwrap();
        assert_eq!(q.creator, CREATOR);
        assert_eq!(q.reward_amount, reward);
        assert_eq!(q.status, QuestStatus::Active);
    }
    let res = c.register_quest(0, 1, CREATOR, TOKEN, 100, VERIFIER, deadline);
    assert_eq!(res, Err(Error::QuestAlreadyExists));
}

#[test]
fn test_register_quests_batch_size_limit_enforced() {
    let mut c = EarnQuestContract::new(ADMIN);
    let quests: Vec<BatchQuestInput> = (0..51).map(|i| make_quest_input(i, 1, 10000)).collect();
    let res = c.register_quests_batch(0, CREATOR, &quests);
    assert_eq!(res, Err(Error::ArrayTooLong));
    for i in 0..51 {
        assert_eq!(c.get_quest(i), Err(Error::QuestNotFound));
    }
}

#[test]
fn batch_of_fifty_is_accepted() {
    let mut c = EarnQuestContract::new(ADMIN);
    let quests: Vec<BatchQuestInput> = (0..50).map(|i| make_quest_input(i, 1, 10000)).collect();
    c.register_quests_batch(0, CREATOR, &quests).unwrap();
    assert!(c.get_quest(49).is_ok());
}

#[test]
fn test_register_quests_batch_empty_fails() {
    let mut c = EarnQuestContract::new(ADMIN);
    let res = c.register_quests_batch(0, CREATOR, &vec![]);
    assert_eq!(res, Err(Error::ArrayTooLong));
}

#[test]
fn test_register_quests_batch_duplicate_in_batch_reverts() {
    let mut c = EarnQuestContract::new(ADMIN);
    let deadline = 10000u64;
    let id = 7;
    let quests = vec![make_quest_input(id, 100, deadline), make_quest_input(id, 200, deadline)];
    let res = c.register_quests_batch(0, CREATOR, &quests);
    assert_eq!(res, Err(Error::QuestAlreadyExists));
    let res2 = c.register_quest(0, id, CREATOR, TOKEN, 100, VERIFIER, deadline);
    assert!(res2.is_ok(), "quest should not exist after reverted batch");
}

#[test]
fn batch_stops_at_first_invalid_item() {
    let mut c = EarnQuestContract::new(ADMIN);
    let quests = vec![
        make_quest_input(1, 100, 10000),
        make_quest_input(2, 0, 10000),
        make_quest_input(3, 100, 0),
    ];
    assert_eq!(c.register_quests_batch(0, CREATOR, &quests), Err(Error::InvalidRewardAmount));
    assert_eq!(c.get_quest(1), Err(Error::QuestNotFound));
}

#[test]
fn test_approve_submissions_batch_success() {
    let mut c = EarnQuestContract::new(ADMIN);
    let deadline = 10000u64;
    c.register_quest(0, 1, CREATOR, TOKEN, 100, VERIFIER, deadline).unwrap();
    c.register_quest(0, 2, CREATOR, TOKEN, 200, VERIFIER, deadline).unwrap();
    c.submit_proof(0, 1, 11, &PROOF).unwrap();
    c.submit_proof(0, 2, 12, &PROOF).unwrap();
    let submissions = vec![make_approval_input(1, 11), make_approval_input(2, 12)];
    c.approve_submissions_batch(VERIFIER, &submissions).unwrap();
    c.claim_reward(1, 11, HOLDING, true).unwrap();
    c.claim_reward(2, 12, HOLDING - 100, true).unwrap();
    assert_eq!(c.get_submission(1, 11).unwrap().status, SubmissionStatus::Paid);
    assert_eq!(c.get_submission(2, 12).unwrap().status, SubmissionStatus::Paid);
}

#[test]
fn test_approve_submissions_batch_size_limit_enforced() {
    let mut c = EarnQuestContract::new(ADMIN);
    let mut submissions = Vec::new();
    for i in 0..51u64 {
        c.register_quest(0, i, CREATOR, TOKEN, 1, VERIFIER, 10000).unwrap();
        c.submit_proof(0, i, 500 + i, &PROOF).unwrap();
        submissions.push(make_approval_input(i, 500 + i));
    }
    let res = c.approve_submissions_batch(VERIFIER, &submissions);
    assert_eq!(res, Err(Error::ArrayTooLong));
    assert_eq!(c.get_submission(0, 500).unwrap().status, SubmissionStatus::Pending);
}

#[test]
fn test_approve_submissions_batch_empty_fails() {
    let mut c = EarnQuestContract::new(ADMIN);
    let res = c.approve_submissions_batch(VERIFIER, &vec![]);
    assert_eq!(res, Err(Error::ArrayTooLong));
}

#[test]
fn test_approve_submissions_batch_unauthorized_reverts() {
    let mut c = EarnQuestContract::new(ADMIN);
    c.register_quest(0, 1, CREATOR, TOKEN, 50, VERIFIER, 10000).unwrap();
    c.submit_proof(0, 1, 11, &PROOF).unwrap();
    let submissions = vec![make_approval_input(1, 11)];
    let res = c.approve_submissions_batch(OTHER_VERIFIER, &submissions);
    assert_eq!(res, Err(Error::Unauthorized));
}

#[test]
fn approval_batch_reverts_earlier_items_on_failure() {
    let mut c = EarnQuestContract::new(ADMIN);
    c.register_quest(0, 1, CREATOR, TOKEN, 50, VERIFIER, 10000).unwrap();
    c.submit_proof(0, 1, 11, &PROOF).unwrap();
    c.submit_proof(0, 1, 12, &PROOF).unwrap();
    let submissions = vec![
        make_approval_input(1, 11),
        make_approval_input(1, 12),
        make_approval_input(1, 11),
    ];
    let res = c.approve_submissions_batch(VERIFIER, &submissions);
    assert_eq!(res, Err(Error::InvalidStatusTransition));
    assert_eq!(c.get_submission(1, 11).unwrap().status, SubmissionStatus::Pending);
    assert_eq!(c.get_submission(1, 12).unwrap().status, SubmissionStatus::Pending);
}

#[test]
fn test_batch_registration_same_state_as_single_calls() {
    let mut batched = EarnQuestContract::new(ADMIN);
    let mut single = EarnQuestContract::new(ADMIN);
    let deadline = 10000u64;
    let quests = vec![make_quest_input(1, 10, deadline), make_quest_input(2, 20, deadline)];
    batched.register_quests_batch(0, CREATOR, &quests).unwrap();
    for q in &quests {
        single
            .register_quest(0, q.id, CREATOR, q.reward_asset, q.reward_amount, q.verifier, q.deadline)
            .unwrap();
    }
    assert_eq!(batched.get_quest(1), single.get_quest(1));
    assert_eq!(batched.get_quest(2), single.get_quest(2));
    let res1 = batched.register_quest(0, 1, CREATOR, TOKEN, 10, VERIFIER, deadline);
    let res2 = batched.register_quest(0, 2, CREATOR, TOKEN, 20, VERIFIER, deadline);
    assert!(res1.is_err() && res2.is_err(), "both quests should already exist");
}
