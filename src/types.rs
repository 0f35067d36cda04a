use vstd::prelude::*;

pub use crate::stats::{CreatorStats, PlatformStats};

verus! {

/// An account identity (creator, verifier, submitter, admin, or token).
pub type Address = u64;

/// The identifier of a quest.
pub type QuestId = u64;

#[derive(Clone, Copy, Debug, PartialEq, Eq, Structural)]
pub enum QuestStatus {
    Active,
    Paused,
    Completed,
    Expired,
    Cancelled,
}

#[derive(Clone, Copy, Debug, PartialEq, Eq, Structural)]
pub enum SubmissionStatus {
    Pending,
    Approved,
    Rejected,
    Paid,
}

#[derive(Clone, Copy, Debug, PartialEq, Eq, Structural)]
pub enum Badge {
    Rookie,
    Explorer,
    Veteran,
    Master,
    Legend,
}

/// A user's reputation: experience points, the level they earn, and badges.
#[derive(Clone, Debug, PartialEq, Eq)]
pub struct UserStats {
    pub xp: u64,
    pub level: u32,
    pub quests_completed: u32,
    pub badges: Vec<Badge>,
}

impl UserStats {
    /// The level that `xp` experience points earn: 1 below 300, 2 below
    /// 600, 3 below 1000, 4 below 1500, 5 from then on.
    pub open spec fn level_for(xp: u64) -> u32 {
        if xp >= 1500 {
            5
        } else if xp >= 1000 {
            4
        } else if xp >= 600 {
            3
        } else if xp >= 300 {
            2
        } else {
            1
        }
    }

    /// Equal field by field, badges compared as sequences.
    pub open spec fn same_as(self, other: UserStats) -> bool {
        &&& self.xp == other.xp
        &&& self.level == other.level
        &&& self.quests_completed == other.quests_completed
        &&& self.badges@ == other.badges@
    }

    /// The stats of a user who has none recorded yet.
    pub open spec fn is_fresh(self) -> bool {
        self.xp == 0 && self.level == 1 && self.quests_completed == 0 && self.badges@.len() == 0
    }

    pub fn fresh() -> (r: UserStats)
        ensures
            r.is_fresh(),
    {
        UserStats { xp: 0, level: 1, quests_completed: 0, badges: Vec::new() }
    }

    pub fn level_of(xp: u64) -> (r: u32)
        ensures
            r == Self::level_for(xp),
    {
        if xp >= 1500 {
            5
        } else if xp >= 1000 {
            4
        } else if xp >= 600 {
            3
        } else if xp >= 300 {
            2
        } else {
            1
        }
    }

    /// A copy of these stats.
    pub fn copy(&self) -> (r: UserStats)
        ensures
            r.same_as(*self),
    {
        let mut badges: Vec<Badge> = Vec::new();
        let mut i: usize = 0;
        while i < self.badges.len()
            invariant
                0 <= i <= self.badges@.len(),
                badges@ == self.badges@.take(i as int),
            decreases self.badges@.len() - i,
        {
            badges.push(self.badges[i]);
            i = i + 1;
            proof {
                assert(badges@ =~= self.badges@.take(i as int));
            }
        }
        assert(badges@ =~= self.badges@);
        UserStats {
            xp: self.xp,
            level: self.level,
            quests_completed: self.quests_completed,
            badges,
        }
    }
}

/// A reward-bearing task posted by a creator.
#[derive(Clone, Copy, Debug, PartialEq, Eq)]
pub struct Quest {
    pub id: QuestId,
    pub creator: Address,
    pub reward_asset: Address,
    pub reward_amount: i128,
    pub verifier: Address,
    pub deadline: u64,
    pub status: QuestStatus,
    pub total_claims: u32,
}

/// A submitter's proof of completion for one quest.
#[derive(Clone, Copy, Debug, PartialEq, Eq)]
pub struct Submission {
    pub quest_id: QuestId,
    pub submitter: Address,
    pub proof_hash: [u8; 32],
    pub status: SubmissionStatus,
    pub timestamp: u64,
}

/// One quest of a batch registration; the creator is shared by the batch.
#[derive(Clone, Copy, Debug, PartialEq, Eq)]
pub struct BatchQuestInput {
    pub id: QuestId,
    pub reward_asset: Address,
    pub reward_amount: i128,
    pub verifier: Address,
    pub deadline: u64,
}

/// One approval of a batch approval; the verifier is shared by the batch.
#[derive(Clone, Copy, Debug, PartialEq, Eq)]
pub struct BatchApprovalInput {
    pub quest_id: QuestId,
    pub submitter: Address,
}

/// The per-quest ledger of deposited, paid-out and refunded funds.
#[derive(Clone, Copy, Debug, PartialEq, Eq)]
pub struct EscrowInfo {
    /// Which quest this escrow belongs to
    pub quest_id: QuestId,
    /// Who deposited (the quest creator)
    pub depositor: Address,
    /// Which token is held
    pub token: Address,
    /// Total tokens deposited, top-ups included
    pub total_deposited: i128,
    /// Total tokens paid out to quest completers
    pub total_paid_out: i128,
    /// Total tokens refunded back to the creator
    pub total_refunded: i128,
    /// Whether deposits and payouts are still accepted
    pub is_active: bool,
    /// Time of the first deposit
    pub created_at: u64,
    /// Number of deposits made (1 = initial, more = top-ups)
    pub deposit_count: u32,
}

impl EscrowInfo {
    /// The funds neither paid out nor refunded.
    pub open spec fn available(self) -> int {
        self.total_deposited - self.total_paid_out - self.total_refunded
    }

    /// Fund conservation: nothing is paid out or refunded that was not
    /// deposited, and a deactivated escrow holds nothing.
    pub open spec fn wf(self) -> bool {
        &&& 0 <= self.total_paid_out
        &&& 0 <= self.total_refunded
        &&& self.total_paid_out + self.total_refunded <= self.total_deposited
        &&& !self.is_active ==> self.available() == 0
    }
}

} // verus!
