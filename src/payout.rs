//! Reward payouts: a balance-checked transfer from the holding party,
//! debited from the quest's escrow when the quest has one.
//!
//! The transfer itself happens outside; `holding_balance` is the holding
//! party's balance in the reward token before it, and `transferred` whether
//! it went through.
use vstd::prelude::*;

use crate::errors::Error;
use crate::escrow::{record_payout, record_payout_step, sufficient_check, validate_sufficient};
use crate::storage::{outcome_is, Storage, StorageView};
use crate::types::QuestId;

verus! {

/// A transfer of `amount` needs a positive amount, a holding balance that
/// covers it, and the transfer to go through.
pub open spec fn transfer_check(amount: i128, holding_balance: i128, transferred: bool) -> Result<
    (),
    Error,
> {
    if amount <= 0 {
        Err(Error::InvalidRewardAmount)
    } else if holding_balance < amount {
        Err(Error::InsufficientBalance)
    } else if !transferred {
        Err(Error::TransferFailed)
    } else {
        Ok(())
    }
}

/// With an escrow: check sufficiency, transfer, then debit the escrow.
/// Without one: the transfer alone.
pub open spec fn payout_step(
    s: StorageView,
    quest_id: QuestId,
    amount: i128,
    holding_balance: i128,
    transferred: bool,
) -> Result<StorageView, Error> {
    if s.escrows.contains_key(quest_id) {
        match sufficient_check(s, quest_id, amount as int) {
            Err(e) => Err(e),
            Ok(_) => match transfer_check(amount, holding_balance, transferred) {
                Err(e) => Err(e),
                Ok(_) => record_payout_step(s, quest_id, amount),
            },
        }
    } else {
        match transfer_check(amount, holding_balance, transferred) {
            Err(e) => Err(e),
            Ok(_) => Ok(s),
        }
    }
}

/// Checks a reward transfer of `amount` and reports its outcome.
pub fn transfer_reward(
    amount: i128,
    holding_balance: i128,
    transferred: bool,
) -> (r: Result<(), Error>)
    ensures
        r == transfer_check(amount, holding_balance, transferred),
{
    if amount <= 0 {
        return Err(Error::InvalidRewardAmount);
    }
    if holding_balance < amount {
        return Err(Error::InsufficientBalance);
    }
    if !transferred {
        return Err(Error::TransferFailed);
    }
    Ok(())
}

/// Pays a reward of `amount`, with escrow tracking when the quest has
/// escrow.
pub fn transfer_reward_from_escrow(
    st: &mut Storage,
    quest_id: QuestId,
    amount: i128,
    holding_balance: i128,
    transferred: bool,
) -> (r: Result<(), Error>)
    requires
        old(st)@.wf(),
    ensures
        final(st)@.wf(),
        outcome_is(
            r,
            old(st)@,
            final(st)@,
            payout_step(old(st)@, quest_id, amount, holding_balance, transferred),
        ),
{
    let has_escrow = st.has_escrow(quest_id);
    if has_escrow {
        validate_sufficient(st, quest_id, amount)?;
    }
    transfer_reward(amount, holding_balance, transferred)?;
    if has_escrow {
        record_payout(st, quest_id, amount)?;
    }
    Ok(())
}

} // verus!
