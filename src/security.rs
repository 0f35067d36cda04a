//! The emergency pause: any admin pauses at once; unpausing takes
//! approvals from a threshold of distinct admins, then a timelock.
use vstd::prelude::*;

use crate::errors::Error;
use crate::payout::transfer_check;
use crate::storage::{outcome_is, Storage, StorageView};
use crate::types::Address;

verus! {

/// Admins only: pause at once.
pub open spec fn pause_step(s: StorageView, caller: Address) -> Result<StorageView, Error> {
    if !s.admins.contains(caller) {
        Err(Error::Unauthorized)
    } else {
        Ok(StorageView { paused: true, ..s })
    }
}

/// When an unpause becomes possible, given a time and a timelock.
pub open spec fn unlock_time(now: u64, timelock: u64) -> u64 {
    if now + timelock <= u64::MAX {
        (now + timelock) as u64
    } else {
        u64::MAX
    }
}

/// Each admin approves at most once per round. The approval that brings
/// the round's count to the threshold schedules the unpause for `now` plus
/// the timelock; later approvals of the same round leave that schedule as
/// it is.
pub open spec fn approve_unpause_step(s: StorageView, now: u64, caller: Address) -> Result<
    StorageView,
    Error,
> {
    if !s.admins.contains(caller) {
        Err(Error::Unauthorized)
    } else if s.approved(caller) {
        Err(Error::AlreadyApproved)
    } else {
        let count = if s.approval_count < u32::MAX {
            (s.approval_count + 1) as u32
        } else {
            s.approval_count
        };
        let approved = StorageView {
            unpause_approvals: s.unpause_approvals.insert(caller, s.unpause_round),
            approval_count: count,
            ..s
        };
        if count >= s.unpause_threshold && s.scheduled_unpause_time is None {
            Ok(
                StorageView {
                    scheduled_unpause_time: Some(unlock_time(now, s.unpause_timelock_seconds)),
                    ..approved
                },
            )
        } else {
            Ok(approved)
        }
    }
}

/// Admins only, once an unpause is scheduled and its time has come: lift
/// the pause and start a fresh approval round.
pub open spec fn unpause_step(s: StorageView, now: u64, caller: Address) -> Result<StorageView, Error> {
    if !s.admins.contains(caller) {
        Err(Error::Unauthorized)
    } else if s.scheduled_unpause_time is None {
        Err(Error::InsufficientApprovals)
    } else if now < s.scheduled_unpause_time->Some_0 {
        Err(Error::TimelockNotExpired)
    } else {
        Ok(
            StorageView {
                paused: false,
                unpause_round: if s.unpause_round < u32::MAX {
                    (s.unpause_round + 1) as u32
                } else {
                    s.unpause_round
                },
                unpause_approvals: Map::empty(),
                approval_count: 0,
                scheduled_unpause_time: None,
                ..s
            },
        )
    }
}

/// Admins only, and only while paused: a balance-checked rescue transfer,
/// outside escrow accounting.
pub open spec fn withdraw_check(
    s: StorageView,
    caller: Address,
    amount: i128,
    holding_balance: i128,
    transferred: bool,
) -> Result<(), Error> {
    if !s.admins.contains(caller) {
        Err(Error::Unauthorized)
    } else if !s.paused {
        Err(Error::Paused)
    } else {
        transfer_check(amount, holding_balance, transferred)
    }
}

/// A change of configuration or of the admin set, made by an admin.
pub open spec fn admin_step(s: StorageView, caller: Address, next: StorageView) -> Result<
    StorageView,
    Error,
> {
    if !s.admins.contains(caller) {
        Err(Error::Unauthorized)
    } else {
        Ok(next)
    }
}

pub fn is_paused(st: &Storage) -> (r: bool)
    ensures
        r == st@.paused,
{
    st.is_paused()
}

/// Every mutating entry point starts here.
pub fn require_not_paused(st: &Storage) -> (r: Result<(), Error>)
    ensures
        r == (if st@.paused { Err(Error::Paused) } else { Ok::<(), Error>(()) }),
{
    if is_paused(st) {
        return Err(Error::Paused);
    }
    Ok(())
}

pub fn emergency_pause(st: &mut Storage, caller: Address) -> (r: Result<(), Error>)
    requires
        old(st)@.wf(),
    ensures
        final(st)@.wf(),
        outcome_is(r, old(st)@, final(st)@, pause_step(old(st)@, caller)),
{
    if !st.is_admin(caller) {
        return Err(Error::Unauthorized);
    }
    st.set_paused(true);
    Ok(())
}

pub fn emergency_approve_unpause(st: &mut Storage, now: u64, caller: Address) -> (r: Result<
    (),
    Error,
>)
    requires
        old(st)@.wf(),
    ensures
        final(st)@.wf(),
        outcome_is(r, old(st)@, final(st)@, approve_unpause_step(old(st)@, now, caller)),
{
    if !st.is_admin(caller) {
        return Err(Error::Unauthorized);
    }
    if st.has_unpause_approval(caller) {
        return Err(Error::AlreadyApproved);
    }
    st.set_unpause_approval(caller, true);
    let approvals = st.count_unpause_approvals();
    let threshold = st.get_unpause_threshold();
    if approvals >= threshold && st.get_scheduled_unpause_time().is_none() {
        let timelock = st.get_unpause_timelock_seconds();
        st.set_scheduled_unpause_time(now.saturating_add(timelock));
    }
    Ok(())
}

pub fn emergency_unpause(st: &mut Storage, now: u64, caller: Address) -> (r: Result<(), Error>)
    requires
        old(st)@.wf(),
    ensures
        final(st)@.wf(),
        outcome_is(r, old(st)@, final(st)@, unpause_step(old(st)@, now, caller)),
{
    if !st.is_admin(caller) {
        return Err(Error::Unauthorized);
    }
    let scheduled = st.get_scheduled_unpause_time();
    match scheduled {
        None => Err(Error::InsufficientApprovals),
        Some(ts) => {
            if now < ts {
                return Err(Error::TimelockNotExpired);
            }
            st.set_paused(false);
            st.clear_unpause_approvals();
            Ok(())
        },
    }
}

/// Checks a rescue transfer of `amount` and reports its outcome.
pub fn emergency_withdraw(
    st: &Storage,
    caller: Address,
    amount: i128,
    holding_balance: i128,
    transferred: bool,
) -> (r: Result<(), Error>)
    ensures
        r == withdraw_check(st@, caller, amount, holding_balance, transferred),
{
    if !st.is_admin(caller) {
        return Err(Error::Unauthorized);
    }
    if !is_paused(st) {
        return Err(Error::Paused);
    }
    crate::payout::transfer_reward(amount, holding_balance, transferred)
}

pub fn set_unpause_threshold(st: &mut Storage, caller: Address, threshold: u32) -> (r: Result<
    (),
    Error,
>)
    requires
        old(st)@.wf(),
    ensures
        final(st)@.wf(),
        outcome_is(
            r,
            old(st)@,
            final(st)@,
            admin_step(old(st)@, caller, StorageView { unpause_threshold: threshold, ..old(st)@ }),
        ),
{
    if !st.is_admin(caller) {
        return Err(Error::Unauthorized);
    }
    st.set_unpause_threshold(threshold);
    Ok(())
}

pub fn set_unpause_timelock(st: &mut Storage, caller: Address, seconds: u64) -> (r: Result<
    (),
    Error,
>)
    requires
        old(st)@.wf(),
    ensures
        final(st)@.wf(),
        outcome_is(
            r,
            old(st)@,
            final(st)@,
            admin_step(
                old(st)@,
                caller,
                StorageView { unpause_timelock_seconds: seconds, ..old(st)@ },
            ),
        ),
{
    if !st.is_admin(caller) {
        return Err(Error::Unauthorized);
    }
    st.set_unpause_timelock_seconds(seconds);
    Ok(())
}

pub fn add_admin(st: &mut Storage, caller: Address, new_admin: Address) -> (r: Result<(), Error>)
    requires
        old(st)@.wf(),
    ensures
        final(st)@.wf(),
        outcome_is(
            r,
            old(st)@,
            final(st)@,
            admin_step(
                old(st)@,
                caller,
                StorageView { admins: old(st)@.admins.insert(new_admin), ..old(st)@ },
            ),
        ),
{
    if !st.is_admin(caller) {
        return Err(Error::Unauthorized);
    }
    st.set_admin(new_admin);
    Ok(())
}

pub fn remove_admin(st: &mut Storage, caller: Address, admin_to_remove: Address) -> (r: Result<
    (),
    Error,
>)
    requires
        old(st)@.wf(),
    ensures
        final(st)@.wf(),
        outcome_is(
            r,
            old(st)@,
            final(st)@,
            admin_step(
                old(st)@,
                caller,
                StorageView { admins: old(st)@.admins.remove(admin_to_remove), ..old(st)@ },
            ),
        ),
{
    if !st.is_admin(caller) {
        return Err(Error::Unauthorized);
    }
    st.remove_admin(admin_to_remove);
    Ok(())
}

} // verus!
