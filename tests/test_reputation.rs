use earn_quest::contract::EarnQuestContract;
use earn_quest::errors::Error;
use earn_quest::storage::Storage;
use earn_quest::types::{Badge, UserStats};

const USER: u64 = 7;

#[test]
fn xp_levels_follow_thresholds() {
    let mut st = Storage::new();
    assert_eq!(st.add_user_xp(USER, 10), Err(Error::UserStatsNotFound));
    st.set_user_stats(USER, UserStats::fresh());
    let expected = [(299, 1), (1, 2), (299, 2), (1, 3), (399, 3), (1, 4), (499, 4), (1, 5)];
    for (delta, level) in expected {
        let stats = st.add_user_xp(USER, delta).unwrap();
        assert_eq!(stats.level, level);
    }
    assert_eq!(st.get_user_stats(USER).unwrap().xp, 1500);
}

#[test]
fn xp_saturates() {
    let mut st = Storage::new();
    let stats = UserStats { xp: u64::MAX - 5, level: 5, quests_completed: 3, badges: vec![Badge::Rookie] };
    st.set_user_stats(USER, stats);
    let after = st.add_user_xp(USER, 100).unwrap();
    assert_eq!(after.xp, u64::MAX);
    assert_eq!(after.quests_completed, 3);
    assert_eq!(after.badges, vec![Badge::Rookie]);
}

#[test]
fn stats_default_for_new_user() {
    let c = EarnQuestContract::new(1);
    let stats = c.get_user_stats(USER);
    assert_eq!(stats, UserStats { xp: 0, level: 1, quests_completed: 0, badges: vec![] });
    let mut st = Storage::new();
    assert!(!st.has_user_stats(USER));
    st.set_user_stats(USER, UserStats::fresh());
    assert!(st.has_user_stats(USER));
    st.delete_user_stats(USER);
    assert_eq!(st.get_user_stats(USER), Err(Error::UserStatsNotFound));
}
