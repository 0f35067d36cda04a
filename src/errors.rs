use vstd::prelude::*;

verus! {

/// Every failure an operation of the marketplace can report.
#[derive(Clone, Copy, Debug, PartialEq, Eq, Structural)]
pub enum Error {
    // Authorization
    Unauthorized,
    // State
    QuestNotActive,
    QuestNotTerminal,
    QuestStillActive,
    InvalidStatusTransition,
    EscrowInactive,
    Paused,
    // Not found
    QuestNotFound,
    SubmissionNotFound,
    EscrowNotFound,
    UserStatsNotFound,
    // Validation
    InvalidRewardAmount,
    AmountTooLarge,
    DeadlineInPast,
    QuestExpired,
    QuestNotExpired,
    ArrayTooLong,
    InvalidAddress,
    InvalidProofHash,
    TokenMismatch,
    // Conflict
    QuestAlreadyExists,
    DuplicateSubmission,
    AlreadyClaimed,
    AlreadyApproved,
    // Funds
    InsufficientBalance,
    InsufficientEscrow,
    TransferFailed,
    NoFundsToWithdraw,
    // Security
    InsufficientApprovals,
    TimelockNotExpired,
}

} // verus!
