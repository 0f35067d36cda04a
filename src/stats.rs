use vstd::prelude::*;

verus! {

/// Platform-wide aggregated statistics.
#[derive(Clone, Copy, Debug, PartialEq, Eq, Structural)]
pub struct PlatformStats {
    pub total_quests_created: u64,
    pub total_submissions: u64,
    pub total_rewards_distributed: u128,
    pub total_active_users: u64,
    pub total_rewards_claimed: u64,
}

/// Per-creator aggregated statistics.
#[derive(Clone, Copy, Debug, PartialEq, Eq, Structural)]
pub struct CreatorStats {
    pub quests_created: u64,
    pub total_rewards_posted: u128,
    pub total_submissions_received: u64,
    pub total_claims_paid: u64,
}

} // verus!
