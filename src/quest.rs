//! Quest registration and the quest status machine.
use vstd::prelude::*;

use crate::errors::Error;
use crate::storage::{claims_monotone, outcome_is, Storage, StorageView};
use crate::types::{Address, BatchQuestInput, Quest, QuestId, QuestStatus};
use crate::validation::{
    quest_transition_allowed, reward_amount_check, validate_addresses_distinct, validate_deadline,
    validate_quest_status_transition, validate_reward_amount, MAX_BATCH_QUEST_REGISTRATION,
};

verus! {

/// The quest that a successful registration creates.
pub open spec fn new_quest(
    id: QuestId,
    creator: Address,
    reward_asset: Address,
    reward_amount: i128,
    verifier: Address,
    deadline: u64,
) -> Quest {
    Quest {
        id,
        creator,
        reward_asset,
        reward_amount,
        verifier,
        deadline,
        status: QuestStatus::Active,
        total_claims: 0,
    }
}

/// Registration fails on a taken id, a reward out of range, a deadline not
/// after `now`, or a creator who is also the verifier, in that order.
pub open spec fn register_quest_step(
    s: StorageView,
    now: u64,
    id: QuestId,
    creator: Address,
    reward_asset: Address,
    reward_amount: i128,
    verifier: Address,
    deadline: u64,
) -> Result<StorageView, Error> {
    if s.quests.contains_key(id) {
        Err(Error::QuestAlreadyExists)
    } else {
        match reward_amount_check(reward_amount as int) {
            Err(e) => Err(e),
            Ok(_) => if deadline <= now {
                Err(Error::DeadlineInPast)
            } else if creator == verifier {
                Err(Error::InvalidAddress)
            } else {
                Ok(
                    s.with_quest(
                        id,
                        new_quest(id, creator, reward_asset, reward_amount, verifier, deadline),
                    ).with_quest_id(id),
                )
            },
        }
    }
}

/// Registers the items in order, stopping at the first failure.
pub open spec fn register_items(
    s: StorageView,
    now: u64,
    creator: Address,
    items: Seq<BatchQuestInput>,
) -> Result<StorageView, Error>
    decreases items.len(),
{
    if items.len() == 0 {
        Ok(s)
    } else {
        let q = items[0];
        match register_quest_step(
            s,
            now,
            q.id,
            creator,
            q.reward_asset,
            q.reward_amount,
            q.verifier,
            q.deadline,
        ) {
            Err(e) => Err(e),
            Ok(next) => register_items(next, now, creator, items.drop_first()),
        }
    }
}

/// A batch of 1 to `MAX_BATCH_QUEST_REGISTRATION` items is registered all
/// or nothing: the outcome is that of the first failing item, if any.
pub open spec fn register_batch_step(
    s: StorageView,
    now: u64,
    creator: Address,
    items: Seq<BatchQuestInput>,
) -> Result<StorageView, Error> {
    if items.len() == 0 || items.len() > MAX_BATCH_QUEST_REGISTRATION {
        Err(Error::ArrayTooLong)
    } else {
        register_items(s, now, creator, items)
    }
}

/// A status change is asked by the quest's creator and must follow the
/// quest status machine.
pub open spec fn update_status_step(
    s: StorageView,
    id: QuestId,
    caller: Address,
    status: QuestStatus,
) -> Result<StorageView, Error> {
    if !s.quests.contains_key(id) {
        Err(Error::QuestNotFound)
    } else if caller != s.quests[id].creator {
        Err(Error::Unauthorized)
    } else if !quest_transition_allowed(s.quests[id].status, status) {
        Err(Error::InvalidStatusTransition)
    } else {
        Ok(s.with_quest(id, Quest { status, ..s.quests[id] }))
    }
}

/// A batch registration only adds quests: no claim count changes.
pub proof fn lemma_register_items_monotone(
    s: StorageView,
    now: u64,
    creator: Address,
    items: Seq<BatchQuestInput>,
)
    ensures
        register_items(s, now, creator, items) matches Ok(next) ==> claims_monotone(s, next),
    decreases items.len(),
{
    if items.len() > 0 {
        let q = items[0];
        if let Ok(next) = register_quest_step(
            s,
            now,
            q.id,
            creator,
            q.reward_asset,
            q.reward_amount,
            q.verifier,
            q.deadline,
        ) {
            lemma_register_items_monotone(next, now, creator, items.drop_first());
            assert(claims_monotone(s, next));
            if let Ok(last) = register_items(next, now, creator, items.drop_first()) {
                assert forall|id: QuestId| #[trigger] s.quests.contains_key(id) implies last.quests.contains_key(id)
                    && s.quests[id].total_claims <= last.quests[id].total_claims by {
                    assert(next.quests.contains_key(id));
                }
            }
        }
    }
}

/// Registers a new Active quest with no claims; `now` is the current time.
pub fn register_quest(
    st: &mut Storage,
    now: u64,
    id: QuestId,
    creator: Address,
    reward_asset: Address,
    reward_amount: i128,
    verifier: Address,
    deadline: u64,
) -> (r: Result<(), Error>)
    requires
        old(st)@.wf(),
    ensures
        final(st)@.wf(),
        outcome_is(
            r,
            old(st)@,
            final(st)@,
            register_quest_step(
                old(st)@,
                now,
                id,
                creator,
                reward_asset,
                reward_amount,
                verifier,
                deadline,
            ),
        ),
{
    if st.has_quest(id) {
        return Err(Error::QuestAlreadyExists);
    }
    validate_reward_amount(reward_amount)?;
    validate_deadline(now, deadline)?;
    validate_addresses_distinct(creator, verifier)?;
    let quest = Quest {
        id,
        creator,
        reward_asset,
        reward_amount,
        verifier,
        deadline,
        status: QuestStatus::Active,
        total_claims: 0,
    };
    st.set_quest(id, &quest);
    st.add_quest_id(id);
    Ok(())
}

/// Registers every quest of `quests` for `creator`, or none of them.
pub fn register_quests_batch(
    st: &mut Storage,
    now: u64,
    creator: Address,
    quests: &Vec<BatchQuestInput>,
) -> (r: Result<(), Error>)
    requires
        old(st)@.wf(),
    ensures
        final(st)@.wf(),
        outcome_is(r, old(st)@, final(st)@, register_batch_step(old(st)@, now, creator, quests@)),
{
    let len = quests.len();
    if len == 0 || len > MAX_BATCH_QUEST_REGISTRATION as usize {
        return Err(Error::ArrayTooLong);
    }
    let mut work = st.snapshot();
    let mut failure: Option<Error> = None;
    let mut i: usize = 0;
    assert(quests@.subrange(0, len as int) =~= quests@);
    while i < len && failure.is_none()
        invariant
            len == quests@.len(),
            0 <= i <= len,
            work@.wf(),
            failure is None ==> register_items(old(st)@, now, creator, quests@) == register_items(
                work@,
                now,
                creator,
                quests@.subrange(i as int, len as int),
            ),
            failure matches Some(e) ==> register_items(old(st)@, now, creator, quests@) == Err::<
                StorageView,
                Error,
            >(e),
        decreases len - i + (if failure is None { 1int } else { 0int }),
    {
        let q = quests[i];
        let ghost rest = quests@.subrange(i as int, len as int);
        assert(rest.drop_first() =~= quests@.subrange(i + 1, len as int));
        assert(rest[0] == q);
        let step = register_quest(
            &mut work,
            now,
            q.id,
            creator,
            q.reward_asset,
            q.reward_amount,
            q.verifier,
            q.deadline,
        );
        match step {
            Err(e) => {
                failure = Some(e);
            },
            Ok(()) => {
                i = i + 1;
            },
        }
    }
    if let Some(e) = failure {
        return Err(e);
    }
    assert(quests@.subrange(len as int, len as int) =~= Seq::<BatchQuestInput>::empty());
    *st = work;
    Ok(())
}

/// Moves a quest to `status`, on behalf of its creator.
pub fn update_quest_status(
    st: &mut Storage,
    id: QuestId,
    caller: Address,
    status: QuestStatus,
) -> (r: Result<(), Error>)
    requires
        old(st)@.wf(),
    ensures
        final(st)@.wf(),
        outcome_is(r, old(st)@, final(st)@, update_status_step(old(st)@, id, caller, status)),
{
    let quest = st.get_quest(id)?;
    if caller != quest.creator {
        return Err(Error::Unauthorized);
    }
    validate_quest_status_transition(&quest.status, &status)?;
    st.update_quest_status(id, status)?;
    Ok(())
}

/// Which quests a query selects.
#[derive(Clone, Copy, Debug, PartialEq, Eq, Structural)]
pub enum QuestFilter {
    Status(QuestStatus),
    Creator(Address),
    /// Rewards between the two bounds, both included.
    RewardRange(i128, i128),
}

pub open spec fn selects(f: QuestFilter, q: Quest) -> bool {
    match f {
        QuestFilter::Status(status) => q.status == status,
        QuestFilter::Creator(creator) => q.creator == creator,
        QuestFilter::RewardRange(min, max) => min <= q.reward_amount <= max,
    }
}

/// The stored quests that `ids` lists and `f` selects, in the order of `ids`.
pub open spec fn selected(s: StorageView, ids: Seq<QuestId>, f: QuestFilter) -> Seq<Quest>
    decreases ids.len(),
{
    if ids.len() == 0 {
        Seq::empty()
    } else {
        let rest = selected(s, ids.drop_last(), f);
        let id = ids.last();
        if s.quests.contains_key(id) && selects(f, s.quests[id]) {
            rest.push(s.quests[id])
        } else {
            rest
        }
    }
}

/// At most `limit` items of `all`, from position `offset` on.
pub open spec fn page(all: Seq<Quest>, offset: int, limit: int) -> Seq<Quest> {
    if offset >= all.len() {
        Seq::empty()
    } else if offset + limit >= all.len() {
        all.subrange(offset, all.len() as int)
    } else {
        all.subrange(offset, offset + limit)
    }
}

proof fn lemma_selected_prefix(s: StorageView, ids: Seq<QuestId>, j: int, f: QuestFilter)
    requires
        0 <= j <= ids.len(),
    ensures
        selected(s, ids.take(j), f).len() <= selected(s, ids, f).len(),
        selected(s, ids, f).take(selected(s, ids.take(j), f).len() as int) == selected(
            s,
            ids.take(j),
            f,
        ),
    decreases ids.len(),
{
    if j == ids.len() {
        assert(ids.take(j) =~= ids);
        assert(selected(s, ids, f).take(selected(s, ids, f).len() as int) =~= selected(s, ids, f));
    } else {
        assert(ids.drop_last().take(j) =~= ids.take(j));
        lemma_selected_prefix(s, ids.drop_last(), j, f);
        let shorter = selected(s, ids.drop_last(), f);
        let part = selected(s, ids.take(j), f);
        assert(shorter.take(part.len() as int) == part);
        let id = ids.last();
        if s.quests.contains_key(id) && selects(f, s.quests[id]) {
            assert(shorter.push(s.quests[id]).take(part.len() as int) =~= shorter.take(
                part.len() as int,
            ));
        }
    }
}

fn selects_quest(f: QuestFilter, q: &Quest) -> (r: bool)
    ensures
        r == selects(f, *q),
{
    match f {
        QuestFilter::Status(status) => q.status == status,
        QuestFilter::Creator(creator) => q.creator == creator,
        QuestFilter::RewardRange(min, max) => q.reward_amount >= min && q.reward_amount <= max,
    }
}

/// The page of quests that `f` selects, in order of registration: skip
/// `offset` of them, then take at most `limit`.
pub fn get_quests(st: &Storage, f: QuestFilter, offset: u32, limit: u32) -> (r: Vec<Quest>)
    ensures
        r@ == page(selected(st@, st@.quest_ids, f), offset as int, limit as int),
{
    let ids = st.get_quest_ids();
    let mut results: Vec<Quest> = Vec::new();
    let mut matched: usize = 0;
    let mut i: usize = 0;
    while i < ids.len() && results.len() < limit as usize
        invariant
            ids@ == st@.quest_ids,
            0 <= i <= ids@.len(),
            matched <= i,
            matched == selected(st@, ids@.take(i as int), f).len(),
            results@ == page(selected(st@, ids@.take(i as int), f), offset as int, limit as int),
        decreases ids@.len() - i,
    {
        let id = ids[i];
        let ghost before = selected(st@, ids@.take(i as int), f);
        proof {
            assert(ids@.take(i + 1).drop_last() =~= ids@.take(i as int));
        }
        if let Ok(quest) = st.get_quest(id) {
            if selects_quest(f, &quest) {
                proof {
                    let after = before.push(quest);
                    if before.len() >= offset {
                        assert(page(after, offset as int, limit as int) =~= page(
                            before,
                            offset as int,
                            limit as int,
                        ).push(quest));
                    } else {
                        assert(page(after, offset as int, limit as int) =~= page(
                            before,
                            offset as int,
                            limit as int,
                        ));
                    }
                }
                if matched >= offset as usize {
                    results.push(quest);
                }
                matched = matched + 1;
            }
        }
        i = i + 1;
    }
    proof {
        let all = selected(st@, ids@, f);
        let part = selected(st@, ids@.take(i as int), f);
        lemma_selected_prefix(st@, ids@, i as int, f);
        if i == ids@.len() {
            assert(ids@.take(i as int) =~= ids@);
        } else {
            assert(page(all, offset as int, limit as int) =~= page(part, offset as int, limit as int));
        }
    }
    results
}

pub fn get_quests_by_status(st: &Storage, status: QuestStatus, offset: u32, limit: u32) -> (r: Vec<
    Quest,
>)
    ensures
        r@ == page(
            selected(st@, st@.quest_ids, QuestFilter::Status(status)),
            offset as int,
            limit as int,
        ),
{
    get_quests(st, QuestFilter::Status(status), offset, limit)
}

pub fn get_quests_by_creator(st: &Storage, creator: Address, offset: u32, limit: u32) -> (r: Vec<
    Quest,
>)
    ensures
        r@ == page(
            selected(st@, st@.quest_ids, QuestFilter::Creator(creator)),
            offset as int,
            limit as int,
        ),
{
    get_quests(st, QuestFilter::Creator(creator), offset, limit)
}

pub fn get_active_quests(st: &Storage, offset: u32, limit: u32) -> (r: Vec<Quest>)
    ensures
        r@ == page(
            selected(st@, st@.quest_ids, QuestFilter::Status(QuestStatus::Active)),
            offset as int,
            limit as int,
        ),
{
    get_quests_by_status(st, QuestStatus::Active, offset, limit)
}

pub fn get_quests_by_reward_range(
    st: &Storage,
    min_reward: i128,
    max_reward: i128,
    offset: u32,
    limit: u32,
) -> (r: Vec<Quest>)
    ensures
        r@ == page(
            selected(st@, st@.quest_ids, QuestFilter::RewardRange(min_reward, max_reward)),
            offset as int,
            limit as int,
        ),
{
    get_quests(st, QuestFilter::RewardRange(min_reward, max_reward), offset, limit)
}

} // verus!
