//! Escrow-backed quest marketplace: quest and submission state machines,
//! per-quest escrow accounting, and an admin-controlled emergency pause.

pub mod contract;
pub mod errors;
pub mod escrow;
pub mod payout;
pub mod quest;
pub mod security;
pub mod stats;
pub mod storage;
pub mod submission;
pub mod types;
pub mod validation;

pub use contract::EarnQuestContract;
pub use errors::Error;
