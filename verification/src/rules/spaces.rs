//! Creating and following spaces.

use crate::application::repository::space_id_of;
use crate::models::contract::LedgerView;
use crate::models::space::SpaceView;
use crate::text::{lemma_push_contains, lemma_push_no_duplicates};
use vstd::prelude::*;

verus! {

/// The record of the space that `caller` creates at time `now` under `name`.
pub open spec fn new_space(caller: Seq<char>, now: u64, name: Seq<char>) -> SpaceView {
    SpaceView {
        space_id: space_id_of(name),
        space_name: name,
        creator_id: caller,
        created_at: now,
        followed_users: Seq::empty(),
        total_point: 0,
    }
}

/// The ledger after the space `sp` was created: it is the newest space.
pub open spec fn after_create_space(s: LedgerView, sp: SpaceView) -> LedgerView {
    LedgerView {
        spaces: s.spaces.insert(sp.space_id, sp),
        space_order: s.space_order.push(sp.space_id),
        ..s
    }
}

/// The followers of a space after `caller` followed it: `caller` is added
/// last, unless already a follower.
pub open spec fn followers_with(followers: Seq<Seq<char>>, caller: Seq<char>) -> Seq<Seq<char>> {
    if followers.contains(caller) {
        followers
    } else {
        followers.push(caller)
    }
}

/// The ledger after `caller` followed the existing space `space_id`.
pub open spec fn after_follow_space(s: LedgerView, caller: Seq<char>, space_id: Seq<char>)
    -> LedgerView {
    let sp = s.spaces[space_id];
    LedgerView {
        spaces: s.spaces.insert(
            space_id,
            SpaceView { followed_users: followers_with(sp.followed_users, caller), ..sp },
        ),
        ..s
    }
}

/// The order of the spaces still lists exactly the spaces, each once, after
/// a space was created under an unused identifier.
pub proof fn lemma_order_after_create_space(s: LedgerView, sp: SpaceView)
    requires
        s.space_order.no_duplicates(),
        forall|k: Seq<char>| s.spaces.contains_key(k) <==> s.space_order.contains(k),
        !s.spaces.contains_key(sp.space_id),
    ensures
        after_create_space(s, sp).space_order.no_duplicates(),
        forall|k: Seq<char>|
            after_create_space(s, sp).spaces.contains_key(k) <==> after_create_space(
                s,
                sp,
            ).space_order.contains(k),
{
    let s2 = after_create_space(s, sp);
    lemma_push_no_duplicates(s.space_order, sp.space_id);
    assert forall|k: Seq<char>| s2.spaces.contains_key(k) <==> s2.space_order.contains(k) by {
        lemma_push_contains(s.space_order, sp.space_id, k);
        assert(s.spaces.contains_key(k) <==> s.space_order.contains(k));
    }
}

/// Creating a space under an unused identifier keeps the ledger consistent.
pub proof fn lemma_create_space_keeps_well_formed(
    s: LedgerView,
    caller: Seq<char>,
    now: u64,
    name: Seq<char>,
)
    requires
        s.well_formed(),
        !s.spaces.contains_key(space_id_of(name)),
    ensures
        after_create_space(s, new_space(caller, now, name)).well_formed(),
{
    let sp = new_space(caller, now, name);
    let s2 = after_create_space(s, sp);
    lemma_order_after_create_space(s, sp);
    assert(s2.records_wf());
    assert(s2.user_index_wf());
    assert(s2.ownership_wf());
    assert(s2.space_index_wf());
}

/// Following an existing space keeps the ledger consistent.
pub proof fn lemma_follow_space_keeps_well_formed(
    s: LedgerView,
    caller: Seq<char>,
    space_id: Seq<char>,
)
    requires
        s.well_formed(),
        s.spaces.contains_key(space_id),
    ensures
        after_follow_space(s, caller, space_id).well_formed(),
{
    let sp = s.spaces[space_id];
    let s2 = after_follow_space(s, caller, space_id);
    if !sp.followed_users.contains(caller) {
        lemma_push_no_duplicates(sp.followed_users, caller);
    }
    assert(s2.records_wf());
    assert(s2.user_index_wf());
    assert(s2.ownership_wf());
    assert(s2.space_index_wf());
}

} // verus!
