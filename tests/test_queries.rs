use earn_quest::contract::EarnQuestContract;
use earn_quest::types::{Address, QuestId, QuestStatus};

const ADMIN: Address = 1;

struct Setup {
    client: EarnQuestContract,
    next_address: Address,
}

fn setup() -> Setup {
    Setup { client: EarnQuestContract::new(ADMIN), next_address: 1000 }
}

impl Setup {
    fn generate(&mut self) -> Address {
        self.next_address += 1;
        self.next_address
    }

    fn register(&mut self, id: QuestId, creator: Address, reward: i128) {
        let token = self.generate();
        let verifier = self.generate();
        self.client.register_quest(0, id, creator, token, reward, verifier, 99999).unwrap();
    }
}

#[test]
fn test_get_active_quests_returns_all_active() {
    let mut t = setup();
    let creator = t.generate();
    t.register(1, creator, 100);
    t.register(2, creator, 200);
    t.register(3, creator, 300);
    let results = t.client.get_active_quests(0, 10);
    assert_eq!(results.len(), 3);
    let ids: Vec<QuestId> = results.iter().map(|q| q.id).collect();
    assert_eq!(ids, vec![1, 2, 3]);
}

#[test]
fn test_get_active_quests_empty_when_none_registered() {
    let t = setup();
    assert_eq!(t.client.get_active_quests(0, 10).len(), 0);
}

#[test]
fn test_get_quests_by_status_active() {
    let mut t = setup();
    let creator = t.generate();
    t.register(1, creator, 500);
    t.register(2, creator, 500);
    assert_eq!(t.client.get_quests_by_status(QuestStatus::Active, 0, 10).len(), 2);
}

#[test]
fn test_get_quests_by_status_no_match_returns_empty() {
    let mut t = setup();
    let creator = t.generate();
    t.register(1, creator, 500);
    assert_eq!(t.client.get_quests_by_status(QuestStatus::Expired, 0, 10).len(), 0);
}

#[test]
fn test_get_quests_by_status_cancelled_returns_empty_when_none_cancelled() {
    let mut t = setup();
    let creator = t.generate();
    t.register(1, creator, 100);
    assert_eq!(t.client.get_quests_by_status(QuestStatus::Cancelled, 0, 10).len(), 0);
}

#[test]
fn cancelled_quest_listed_by_status() {
    let mut t = setup();
    let creator = t.generate();
    t.register(1, creator, 100);
    t.register(2, creator, 100);
    t.client.cancel_quest(2, creator, true).unwrap();
    let cancelled = t.client.get_quests_by_status(QuestStatus::Cancelled, 0, 10);
    assert_eq!(cancelled.len(), 1);
    assert_eq!(cancelled[0].id, 2);
    assert_eq!(t.client.get_active_quests(0, 10).len(), 1);
}

#[test]
fn test_get_quests_by_creator_returns_only_creator_quests() {
    let mut t = setup();
    let creator_a = t.generate();
    let creator_b = t.generate();
    t.register(1, creator_a, 100);
    t.register(2, creator_a, 200);
    t.register(3, creator_b, 300);
    assert_eq!(t.client.get_quests_by_creator(creator_a, 0, 10).len(), 2);
    assert_eq!(t.client.get_quests_by_creator(creator_b, 0, 10).len(), 1);
}

#[test]
fn test_get_quests_by_creator_unknown_creator_returns_empty() {
    let mut t = setup();
    let creator = t.generate();
    let unknown = t.generate();
    t.register(1, creator, 100);
    assert_eq!(t.client.get_quests_by_creator(unknown, 0, 10).len(), 0);
}

#[test]
fn test_get_quests_by_reward_range_filters_correctly() {
    let mut t = setup();
    let creator = t.generate();
    t.register(1, creator, 100);
    t.register(2, creator, 500);
    t.register(3, creator, 1000);
    assert_eq!(t.client.get_quests_by_reward_range(100, 500, 0, 10).len(), 2);
}

#[test]
fn test_get_quests_by_reward_range_exact_match() {
    let mut t = setup();
    let creator = t.generate();
    t.register(1, creator, 250);
    t.register(2, creator, 750);
    let results = t.client.get_quests_by_reward_range(250, 250, 0, 10);
    assert_eq!(results.len(), 1);
    assert_eq!(results[0].reward_amount, 250);
}

#[test]
fn test_get_quests_by_reward_range_no_match_returns_empty() {
    let mut t = setup();
    let creator = t.generate();
    t.register(1, creator, 1000);
    assert_eq!(t.client.get_quests_by_reward_range(1, 100, 0, 10).len(), 0);
}

#[test]
fn test_pagination_limit_respected() {
    let mut t = setup();
    let creator = t.generate();
    for (id, reward) in [(1, 100), (2, 200), (3, 300), (4, 400), (5, 500)] {
        t.register(id, creator, reward);
    }
    let page1 = t.client.get_active_quests(0, 2);
    assert_eq!(page1.len(), 2);
    let page2 = t.client.get_active_quests(2, 2);
    assert_eq!(page2.len(), 2);
    assert_eq!(page2[0].id, 3);
    let page3 = t.client.get_active_quests(4, 2);
    assert_eq!(page3.len(), 1);
    assert_eq!(page3[0].id, 5);
}

#[test]
fn test_pagination_offset_beyond_results_returns_empty() {
    let mut t = setup();
    let creator = t.generate();
    t.register(1, creator, 100);
    t.register(2, creator, 200);
    assert_eq!(t.client.get_active_quests(10, 10).len(), 0);
}

#[test]
fn test_pagination_zero_limit_returns_empty() {
    let mut t = setup();
    let creator = t.generate();
    t.register(1, creator, 100);
    assert_eq!(t.client.get_active_quests(0, 0).len(), 0);
}

#[test]
fn test_creator_query_pagination() {
    let mut t = setup();
    let creator = t.generate();
    t.register(1, creator, 100);
    t.register(2, creator, 200);
    t.register(3, creator, 300);
    assert_eq!(t.client.get_quests_by_creator(creator, 0, 2).len(), 2);
    assert_eq!(t.client.get_quests_by_creator(creator, 2, 2).len(), 1);
}

#[test]
fn test_reward_range_pagination() {
    let mut t = setup();
    let creator = t.generate();
    t.register(1, creator, 100);
    t.register(2, creator, 200);
    t.register(3, creator, 300);
    let page = t.client.get_quests_by_reward_range(100, 300, 1, 1);
    assert_eq!(page.len(), 1);
    assert_eq!(page[0].reward_amount, 200);
}
