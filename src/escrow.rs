//! Per-quest escrow: deposits, payouts and refunds, with fund conservation.
//!
//! Token movements happen outside this module. An operation that needs one
//! takes `transferred`: whether the transfer it asks for went through. The
//! deposit asks the depositor to send `amount` to the holding party; a
//! refund asks the holding party to send the escrow's available funds back
//! to its depositor, and asks nothing when none are available.
use vstd::prelude::*;

use crate::errors::Error;
use crate::storage::{outcome_is, outcome_with_amount_is, Storage, StorageView};
use crate::types::{Address, EscrowInfo, Quest, QuestId, QuestStatus};
use crate::validation::{
    is_quest_terminal, is_terminal, quest_transition_allowed, reward_amount_check,
    validate_quest_status_transition, validate_reward_amount,
};

verus! {

/// `EscrowNotFound` without a record, `EscrowInactive` once deactivated,
/// `InsufficientEscrow` when less than `amount` is available.
pub open spec fn sufficient_check(s: StorageView, quest_id: QuestId, amount: int) -> Result<
    (),
    Error,
> {
    if !s.escrows.contains_key(quest_id) {
        Err(Error::EscrowNotFound)
    } else if !s.escrows[quest_id].is_active {
        Err(Error::EscrowInactive)
    } else if s.escrows[quest_id].available() < amount {
        Err(Error::InsufficientEscrow)
    } else {
        Ok(())
    }
}

/// A payout re-checks sufficiency, then adds `amount` to what was paid out.
pub open spec fn record_payout_step(s: StorageView, quest_id: QuestId, amount: i128) -> Result<
    StorageView,
    Error,
> {
    match sufficient_check(s, quest_id, amount as int) {
        Err(e) => Err(e),
        Ok(_) => Ok(
            s.with_escrow(
                quest_id,
                EscrowInfo {
                    total_paid_out: (s.escrows[quest_id].total_paid_out + amount) as i128,
                    ..s.escrows[quest_id]
                },
            ),
        ),
    }
}

/// A deposit by the creator of a live quest, in its reward token, creates
/// the escrow or tops it up.
pub open spec fn deposit_step(
    s: StorageView,
    now: u64,
    quest_id: QuestId,
    depositor: Address,
    token: Address,
    amount: i128,
    transferred: bool,
) -> Result<StorageView, Error> {
    match reward_amount_check(amount as int) {
        Err(e) => Err(e),
        Ok(_) => if !s.quests.contains_key(quest_id) {
            Err(Error::QuestNotFound)
        } else if depositor != s.quests[quest_id].creator {
            Err(Error::Unauthorized)
        } else if is_terminal(s.quests[quest_id].status) {
            Err(Error::QuestNotActive)
        } else if token != s.quests[quest_id].reward_asset {
            Err(Error::TokenMismatch)
        } else if !transferred {
            Err(Error::TransferFailed)
        } else if s.escrows.contains_key(quest_id) {
            let e = s.escrows[quest_id];
            if !e.is_active {
                Err(Error::EscrowInactive)
            } else if e.total_deposited + amount > i128::MAX {
                Err(Error::AmountTooLarge)
            } else {
                Ok(
                    s.with_escrow(
                        quest_id,
                        EscrowInfo {
                            total_deposited: (e.total_deposited + amount) as i128,
                            deposit_count: if e.deposit_count < u32::MAX {
                                (e.deposit_count + 1) as u32
                            } else {
                                e.deposit_count
                            },
                            ..e
                        },
                    ),
                )
            }
        } else {
            Ok(
                s.with_escrow(
                    quest_id,
                    EscrowInfo {
                        quest_id,
                        depositor,
                        token,
                        total_deposited: amount,
                        total_paid_out: 0,
                        total_refunded: 0,
                        is_active: true,
                        created_at: now,
                        deposit_count: 1,
                    },
                ),
            )
        },
    }
}

/// A refund returns everything still available and deactivates the
/// escrow; the amount refunded comes with the new state.
pub open spec fn refund_step(s: StorageView, quest_id: QuestId, transferred: bool) -> Result<
    (StorageView, i128),
    Error,
> {
    if !s.escrows.contains_key(quest_id) {
        Err(Error::EscrowNotFound)
    } else {
        let e = s.escrows[quest_id];
        if e.available() > 0 && !transferred {
            Err(Error::TransferFailed)
        } else {
            Ok(
                (
                    s.with_escrow(
                        quest_id,
                        EscrowInfo {
                            total_refunded: (e.total_refunded + e.available()) as i128,
                            is_active: false,
                            ..e
                        },
                    ),
                    e.available() as i128,
                ),
            )
        }
    }
}

/// Sets the quest's status to `status` and refunds its escrow if it has one
/// (refunding 0 otherwise).
pub open spec fn close_step(s: StorageView, quest_id: QuestId, status: QuestStatus, transferred: bool) -> Result<
    (StorageView, i128),
    Error,
> {
    let closed = s.with_quest(quest_id, Quest { status, ..s.quests[quest_id] });
    if s.escrows.contains_key(quest_id) {
        refund_step(closed, quest_id, transferred)
    } else {
        Ok((closed, 0))
    }
}

/// The creator cancels a live quest and gets the escrow's remainder back.
pub open spec fn cancel_step(s: StorageView, quest_id: QuestId, caller: Address, transferred: bool) -> Result<
    (StorageView, i128),
    Error,
> {
    if !s.quests.contains_key(quest_id) {
        Err(Error::QuestNotFound)
    } else if caller != s.quests[quest_id].creator {
        Err(Error::Unauthorized)
    } else if is_terminal(s.quests[quest_id].status) {
        Err(Error::QuestNotActive)
    } else if !quest_transition_allowed(s.quests[quest_id].status, QuestStatus::Cancelled) {
        Err(Error::InvalidStatusTransition)
    } else {
        close_step(s, quest_id, QuestStatus::Cancelled, transferred)
    }
}

/// The creator expires a live quest whose deadline has come and gets the
/// escrow's remainder back.
pub open spec fn expire_step(
    s: StorageView,
    now: u64,
    quest_id: QuestId,
    caller: Address,
    transferred: bool,
) -> Result<(StorageView, i128), Error> {
    if !s.quests.contains_key(quest_id) {
        Err(Error::QuestNotFound)
    } else if caller != s.quests[quest_id].creator {
        Err(Error::Unauthorized)
    } else if is_terminal(s.quests[quest_id].status) {
        Err(Error::QuestNotActive)
    } else if now < s.quests[quest_id].deadline {
        Err(Error::QuestNotExpired)
    } else if !quest_transition_allowed(s.quests[quest_id].status, QuestStatus::Expired) {
        Err(Error::InvalidStatusTransition)
    } else {
        close_step(s, quest_id, QuestStatus::Expired, transferred)
    }
}

/// The creator of a finished quest takes back what its escrow still holds.
pub open spec fn withdraw_step(
    s: StorageView,
    quest_id: QuestId,
    caller: Address,
    transferred: bool,
) -> Result<(StorageView, i128), Error> {
    if !s.quests.contains_key(quest_id) {
        Err(Error::QuestNotFound)
    } else if caller != s.quests[quest_id].creator {
        Err(Error::Unauthorized)
    } else if !is_terminal(s.quests[quest_id].status) {
        Err(Error::QuestNotTerminal)
    } else if !s.escrows.contains_key(quest_id) {
        Err(Error::EscrowNotFound)
    } else if s.escrows[quest_id].available() <= 0 {
        Err(Error::NoFundsToWithdraw)
    } else {
        refund_step(s, quest_id, transferred)
    }
}

/// The available escrow balance of a quest.
pub open spec fn balance_of(s: StorageView, quest_id: QuestId) -> Result<i128, Error> {
    if s.escrows.contains_key(quest_id) {
        Ok(s.escrows[quest_id].available() as i128)
    } else {
        Err(Error::EscrowNotFound)
    }
}

/// Fund conservation: in a well-formed state, every escrow has paid out
/// and refunded together no more than was deposited.
pub proof fn lemma_conservation(s: StorageView, quest_id: QuestId)
    requires
        s.wf(),
        s.escrows.contains_key(quest_id),
    ensures
        s.escrows[quest_id].total_deposited >= s.escrows[quest_id].total_paid_out
            + s.escrows[quest_id].total_refunded,
        s.escrows[quest_id].available() >= 0,
{
}

/// A refund returns exactly what was available and leaves the escrow
/// inactive and empty, so that a second refund moves nothing.
pub proof fn lemma_refund_drains(s: StorageView, quest_id: QuestId, transferred: bool, again: bool)
    requires
        s.wf(),
    ensures
        refund_step(s, quest_id, transferred) matches Ok((next, amount)) ==> {
            &&& amount == s.escrows[quest_id].available()
            &&& !next.escrows[quest_id].is_active
            &&& next.escrows[quest_id].available() == 0
            &&& refund_step(next, quest_id, again) matches Ok((_, second)) && second == 0
        },
{
}

/// Deposits `amount` of `token` into the quest's escrow.
pub fn deposit(
    st: &mut Storage,
    now: u64,
    quest_id: QuestId,
    depositor: Address,
    token: Address,
    amount: i128,
    transferred: bool,
) -> (r: Result<(), Error>)
    requires
        old(st)@.wf(),
    ensures
        final(st)@.wf(),
        outcome_is(
            r,
            old(st)@,
            final(st)@,
            deposit_step(old(st)@, now, quest_id, depositor, token, amount, transferred),
        ),
{
    validate_reward_amount(amount)?;
    let quest = st.get_quest(quest_id)?;
    if depositor != quest.creator {
        return Err(Error::Unauthorized);
    }
    if is_quest_terminal(&quest.status) {
        return Err(Error::QuestNotActive);
    }
    if token != quest.reward_asset {
        return Err(Error::TokenMismatch);
    }
    if !transferred {
        return Err(Error::TransferFailed);
    }
    let escrow = if st.has_escrow(quest_id) {
        let mut existing = st.get_escrow(quest_id)?;
        if !existing.is_active {
            return Err(Error::EscrowInactive);
        }
        existing.total_deposited = match existing.total_deposited.checked_add(amount) {
            Some(total) => total,
            None => {
                return Err(Error::AmountTooLarge);
            },
        };
        existing.deposit_count = existing.deposit_count.saturating_add(1);
        existing
    } else {
        EscrowInfo {
            quest_id,
            depositor,
            token,
            total_deposited: amount,
            total_paid_out: 0,
            total_refunded: 0,
            is_active: true,
            created_at: now,
            deposit_count: 1,
        }
    };
    st.set_escrow(quest_id, &escrow);
    Ok(())
}

/// Checks that the quest's escrow can cover `amount`.
pub fn validate_sufficient(st: &Storage, quest_id: QuestId, amount: i128) -> (r: Result<(), Error>)
    requires
        st@.wf(),
    ensures
        r == sufficient_check(st@, quest_id, amount as int),
{
    let escrow = st.get_escrow(quest_id)?;
    if !escrow.is_active {
        return Err(Error::EscrowInactive);
    }
    let available = escrow.total_deposited - escrow.total_paid_out - escrow.total_refunded;
    if available < amount {
        return Err(Error::InsufficientEscrow);
    }
    Ok(())
}

/// Records a payout of `amount` that has already been transferred.
pub fn record_payout(st: &mut Storage, quest_id: QuestId, amount: i128) -> (r:
    Result<(), Error>)
    requires
        old(st)@.wf(),
        0 < amount,
    ensures
        final(st)@.wf(),
        outcome_is(r, old(st)@, final(st)@, record_payout_step(old(st)@, quest_id, amount)),
{
    let mut escrow = st.get_escrow(quest_id)?;
    if !escrow.is_active {
        return Err(Error::EscrowInactive);
    }
    let available = escrow.total_deposited - escrow.total_paid_out - escrow.total_refunded;
    if available < amount {
        return Err(Error::InsufficientEscrow);
    }
    escrow.total_paid_out = escrow.total_paid_out + amount;
    st.set_escrow(quest_id, &escrow);
    Ok(())
}

/// Refunds the escrow's available funds to its depositor and deactivates
/// it; returns the amount refunded.
pub fn refund_remaining(st: &mut Storage, quest_id: QuestId, transferred: bool) -> (r: Result<
    i128,
    Error,
>)
    requires
        old(st)@.wf(),
    ensures
        final(st)@.wf(),
        outcome_with_amount_is(r, old(st)@, final(st)@, refund_step(old(st)@, quest_id, transferred)),
{
    let mut escrow = st.get_escrow(quest_id)?;
    let available = escrow.total_deposited - escrow.total_paid_out - escrow.total_refunded;
    if available > 0 && !transferred {
        return Err(Error::TransferFailed);
    }
    escrow.total_refunded = escrow.total_refunded + available;
    escrow.is_active = false;
    st.set_escrow(quest_id, &escrow);
    Ok(available)
}

/// Refunds first, then sets the status, so that a failed refund leaves
/// everything as it was.
fn close_quest(st: &mut Storage, quest_id: QuestId, status: QuestStatus, transferred: bool) -> (r:
    Result<i128, Error>)
    requires
        old(st)@.wf(),
        old(st)@.quests.contains_key(quest_id),
    ensures
        final(st)@.wf(),
        outcome_with_amount_is(
            r,
            old(st)@,
            final(st)@,
            close_step(old(st)@, quest_id, status, transferred),
        ),
{
    let refunded = if st.has_escrow(quest_id) {
        refund_remaining(st, quest_id, transferred)?
    } else {
        0
    };
    st.update_quest_status(quest_id, status)?;
    Ok(refunded)
}

/// Cancels a quest on behalf of its creator; returns the amount refunded.
pub fn cancel_quest(st: &mut Storage, quest_id: QuestId, caller: Address, transferred: bool) -> (r:
    Result<i128, Error>)
    requires
        old(st)@.wf(),
    ensures
        final(st)@.wf(),
        outcome_with_amount_is(
            r,
            old(st)@,
            final(st)@,
            cancel_step(old(st)@, quest_id, caller, transferred),
        ),
{
    let quest = st.get_quest(quest_id)?;
    if caller != quest.creator {
        return Err(Error::Unauthorized);
    }
    if is_quest_terminal(&quest.status) {
        return Err(Error::QuestNotActive);
    }
    validate_quest_status_transition(&quest.status, &QuestStatus::Cancelled)?;
    close_quest(st, quest_id, QuestStatus::Cancelled, transferred)
}

/// Expires a quest whose deadline has come, on behalf of its creator;
/// returns the amount refunded.
pub fn expire_quest(
    st: &mut Storage,
    now: u64,
    quest_id: QuestId,
    caller: Address,
    transferred: bool,
) -> (r: Result<i128, Error>)
    requires
        old(st)@.wf(),
    ensures
        final(st)@.wf(),
        outcome_with_amount_is(
            r,
            old(st)@,
            final(st)@,
            expire_step(old(st)@, now, quest_id, caller, transferred),
        ),
{
    let quest = st.get_quest(quest_id)?;
    if caller != quest.creator {
        return Err(Error::Unauthorized);
    }
    if is_quest_terminal(&quest.status) {
        return Err(Error::QuestNotActive);
    }
    if now < quest.deadline {
        return Err(Error::QuestNotExpired);
    }
    validate_quest_status_transition(&quest.status, &QuestStatus::Expired)?;
    close_quest(st, quest_id, QuestStatus::Expired, transferred)
}

/// Returns what is left in the escrow of a finished quest to its creator.
pub fn withdraw_unclaimed(st: &mut Storage, quest_id: QuestId, caller: Address, transferred: bool) -> (r:
    Result<i128, Error>)
    requires
        old(st)@.wf(),
    ensures
        final(st)@.wf(),
        outcome_with_amount_is(
            r,
            old(st)@,
            final(st)@,
            withdraw_step(old(st)@, quest_id, caller, transferred),
        ),
{
    let quest = st.get_quest(quest_id)?;
    if caller != quest.creator {
        return Err(Error::Unauthorized);
    }
    if !is_quest_terminal(&quest.status) {
        return Err(Error::QuestNotTerminal);
    }
    if !st.has_escrow(quest_id) {
        return Err(Error::EscrowNotFound);
    }
    let escrow = st.get_escrow(quest_id)?;
    let available = escrow.total_deposited - escrow.total_paid_out - escrow.total_refunded;
    if available <= 0 {
        return Err(Error::NoFundsToWithdraw);
    }
    refund_remaining(st, quest_id, transferred)
}

/// The available (neither paid out nor refunded) escrow of a quest.
pub fn get_balance(st: &Storage, quest_id: QuestId) -> (r: Result<i128, Error>)
    requires
        st@.wf(),
    ensures
        r == balance_of(st@, quest_id),
{
    let escrow = st.get_escrow(quest_id)?;
    Ok(escrow.total_deposited - escrow.total_paid_out - escrow.total_refunded)
}

/// The full escrow record of a quest.
pub fn get_info(st: &Storage, quest_id: QuestId) -> (r: Result<EscrowInfo, Error>)
    ensures
        r == (if st@.escrows.contains_key(quest_id) {
            Ok::<EscrowInfo, Error>(st@.escrows[quest_id])
        } else {
            Err(Error::EscrowNotFound)
        }),
{
    st.get_escrow(quest_id)
}

} // verus!
