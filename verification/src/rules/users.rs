//! Registering users.

use crate::models::contract::LedgerView;
use crate::models::user::{new_user, UserRoles, UserView};
use vstd::prelude::*;

verus! {

/// The ledger after `u` was registered.
pub open spec fn after_register_user(s: LedgerView, u: UserView) -> LedgerView {
    LedgerView { users: s.users.insert(u.user_id, u), ..s }
}

/// Registering a new user keeps the ledger consistent.
pub proof fn lemma_register_user_keeps_well_formed(
    s: LedgerView,
    user_id: Seq<char>,
    role: UserRoles,
    total_point: u32,
)
    requires
        s.well_formed(),
        !s.users.contains_key(user_id),
    ensures
        after_register_user(s, new_user(user_id, role, total_point)).well_formed(),
{
    let u = new_user(user_id, role, total_point);
    let s2 = after_register_user(s, u);
    assert(s2.records_wf());
    assert(s2.user_index_wf());
    assert(s2.ownership_wf()) by {
        assert forall|t: Seq<char>| #[trigger] s2.threads.contains_key(t) implies {
            &&& s2.users.contains_key(s2.threads[t].creator_id)
            &&& s2.users[s2.threads[t].creator_id].threads_list.contains(t)
        } by {
            assert(s.threads.contains_key(t));
        }
    }
    assert(s2.space_index_wf());
}

} // verus!
