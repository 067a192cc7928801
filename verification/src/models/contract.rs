//! The ledger as a whole: its records, its indexes, and what makes it
//! consistent.

use crate::application::repository::{space_id_of, thread_id_of};
use crate::models::space::{SpaceMetadata, SpaceView};
use crate::models::thread::{tally, ThreadMetadata, ThreadView, VoteView};
use crate::models::user::{UserMetadata, UserView};
use crate::table::Table;
use crate::text::{clone_texts, texts};
use vstd::prelude::*;

verus! {

/// The threads listed under one key of an index, in the order in which they
/// were added.
pub struct ThreadIds {
    pub ids: Vec<String>,
}

impl View for ThreadIds {
    type V = Seq<Seq<char>>;

    open spec fn view(&self) -> Seq<Seq<char>> {
        texts(self.ids@)
    }
}

impl Clone for ThreadIds {
    fn clone(&self) -> (r: Self)
        ensures
            r@ == self@,
    {
        ThreadIds { ids: clone_texts(&self.ids) }
    }
}

/// What a ledger stands for: its records by identifier, the spaces'
/// identifiers in the order of their creation, and the two indexes that list
/// the threads of each user and of each space.
pub struct LedgerView {
    pub users: Map<Seq<char>, UserView>,
    pub threads: Map<Seq<char>, ThreadView>,
    pub spaces: Map<Seq<char>, SpaceView>,
    pub space_order: Seq<Seq<char>>,
    pub threads_per_user: Map<Seq<char>, Seq<Seq<char>>>,
    pub threads_per_space: Map<Seq<char>, Seq<Seq<char>>>,
}

/// The list under `key` of an index; empty where the index has no such key.
pub open spec fn index_or_empty(index: Map<Seq<char>, Seq<Seq<char>>>, key: Seq<char>) -> Seq<
    Seq<char>,
> {
    if index.contains_key(key) {
        index[key]
    } else {
        Seq::empty()
    }
}

/// A user record stored under `key` is consistent: it carries its key, it
/// counts its threads, and it lists none twice.
pub open spec fn user_wf(key: Seq<char>, u: UserView) -> bool {
    &&& u.user_id == key
    &&& u.threads_owned == u.threads_list.len()
    &&& u.threads_list.no_duplicates()
}

/// Every vote names one of the `choices` choices, and no voter has two votes.
pub open spec fn votes_wf(votes: Seq<VoteView>, choices: int) -> bool {
    &&& forall|i: int| 0 <= i < votes.len() ==> (#[trigger] votes[i]).choice < choices
    &&& forall|i: int, j: int|
        0 <= i < j < votes.len() ==> (#[trigger] votes[i]).voter != (#[trigger] votes[j]).voter
}

/// A thread record stored under `key` is consistent: it carries its key,
/// which is derived from its title and creator; it has two or three choices;
/// its votes are valid; and each choice's total is the tally of its votes.
pub open spec fn thread_wf(key: Seq<char>, t: ThreadView) -> bool {
    &&& t.thread_id == key
    &&& t.thread_id == thread_id_of(t.title, t.creator_id)
    &&& 2 <= t.choices_count <= 3
    &&& t.choices_map.len() == t.choices_count
    &&& t.choices_rating.len() == t.choices_count
    &&& votes_wf(t.user_votes_map, t.choices_count as int)
    &&& forall|c: int|
        0 <= c < t.choices_count ==> #[trigger] t.choices_rating[c] == tally(t.user_votes_map, c)
}

/// A space record stored under `key` is consistent: it carries its key,
/// which is derived from its name, and lists no follower twice.
pub open spec fn space_wf(key: Seq<char>, sp: SpaceView) -> bool {
    &&& sp.space_id == key
    &&& sp.space_id == space_id_of(sp.space_name)
    &&& sp.followed_users.no_duplicates()
}

impl LedgerView {
    /// Every record is consistent, and the order of the spaces lists exactly
    /// the spaces, each once.
    pub open spec fn records_wf(self) -> bool {
        &&& forall|k: Seq<char>| self.users.contains_key(k) ==> user_wf(k, #[trigger] self.users[k])
        &&& forall|k: Seq<char>|
            self.threads.contains_key(k) ==> thread_wf(k, #[trigger] self.threads[k])
        &&& forall|k: Seq<char>|
            self.spaces.contains_key(k) ==> space_wf(k, #[trigger] self.spaces[k])
        &&& self.space_order.no_duplicates()
        &&& forall|k: Seq<char>| self.spaces.contains_key(k) <==> self.space_order.contains(k)
    }

    /// The index of threads per user lists, for each user who opened a
    /// thread, the threads of the user's own record; users who opened none
    /// have no entry.
    pub open spec fn user_index_wf(self) -> bool {
        &&& forall|u: Seq<char>| #[trigger]
            self.threads_per_user.contains_key(u) ==> {
                &&& self.users.contains_key(u)
                &&& self.threads_per_user[u] == self.users[u].threads_list
                &&& self.threads_per_user[u].len() > 0
            }
        &&& forall|u: Seq<char>|
            self.users.contains_key(u) && !self.threads_per_user.contains_key(u) ==> (
            #[trigger] self.users[u]).threads_list.len() == 0
    }

    /// The threads a user lists exist and were created by that user, and
    /// every thread is listed by its creator.
    pub open spec fn ownership_wf(self) -> bool {
        &&& forall|u: Seq<char>, i: int|
            self.users.contains_key(u) && 0 <= i < self.users[u].threads_list.len() ==> {
                &&& self.threads.contains_key(#[trigger] self.users[u].threads_list[i])
                &&& self.threads[self.users[u].threads_list[i]].creator_id == u
            }
        &&& forall|t: Seq<char>| #[trigger]
            self.threads.contains_key(t) ==> {
                &&& self.users.contains_key(self.threads[t].creator_id)
                &&& self.users[self.threads[t].creator_id].threads_list.contains(t)
            }
    }

    /// The index of threads per space lists, for existing spaces only and
    /// without repetition, existing threads of that space, and every thread
    /// is listed under its space.
    pub open spec fn space_index_wf(self) -> bool {
        &&& forall|sid: Seq<char>| #[trigger]
            self.threads_per_space.contains_key(sid) ==> {
                &&& self.spaces.contains_key(sid)
                &&& self.threads_per_space[sid].no_duplicates()
            }
        &&& forall|sid: Seq<char>, i: int|
            self.threads_per_space.contains_key(sid) && 0 <= i < self.threads_per_space[sid].len()
                ==> {
                &&& self.threads.contains_key(#[trigger] self.threads_per_space[sid][i])
                &&& space_id_of(self.threads[self.threads_per_space[sid][i]].space_name) == sid
            }
        &&& forall|t: Seq<char>| #[trigger]
            self.threads.contains_key(t) ==> {
                &&& self.threads_per_space.contains_key(space_id_of(self.threads[t].space_name))
                &&& self.threads_per_space[space_id_of(self.threads[t].space_name)].contains(t)
            }
    }

    /// The ledger is consistent.
    pub open spec fn well_formed(self) -> bool {
        &&& self.records_wf()
        &&& self.user_index_wf()
        &&& self.ownership_wf()
        &&& self.space_index_wf()
    }

    /// The ledger without any record.
    pub open spec fn empty() -> LedgerView {
        LedgerView {
            users: Map::empty(),
            threads: Map::empty(),
            spaces: Map::empty(),
            space_order: Seq::empty(),
            threads_per_user: Map::empty(),
            threads_per_space: Map::empty(),
        }
    }
}

/// The ledger: users, threads and spaces by identifier, and the indexes of
/// threads per user and per space.
pub struct ThreadScoreContract {
    pub(crate) user_metadata_by_id: Table<UserMetadata>,
    pub(crate) thread_metadata_by_id: Table<ThreadMetadata>,
    pub(crate) space_metadata_by_id: Table<SpaceMetadata>,
    pub(crate) threads_per_user: Table<ThreadIds>,
    pub(crate) threads_per_space: Table<ThreadIds>,
}

impl View for ThreadScoreContract {
    type V = LedgerView;

    open(crate) spec fn view(&self) -> LedgerView {
        LedgerView {
            users: self.user_metadata_by_id@,
            threads: self.thread_metadata_by_id@,
            spaces: self.space_metadata_by_id@,
            space_order: self.space_metadata_by_id.keys(),
            threads_per_user: self.threads_per_user@,
            threads_per_space: self.threads_per_space@,
        }
    }
}

/// A ledger: something that stands for a `LedgerView` and knows when it is
/// consistent. The operations of the ledger require a consistent ledger and
/// leave one.
pub trait Ledger: View<V = LedgerView> + Sized {
    /// The representation is valid and the ledger it stands for is
    /// consistent.
    spec fn well_formed(&self) -> bool;
}

impl Ledger for ThreadScoreContract {
    open(crate) spec fn well_formed(&self) -> bool {
        &&& self.user_metadata_by_id.well_formed()
        &&& self.thread_metadata_by_id.well_formed()
        &&& self.space_metadata_by_id.well_formed()
        &&& self.threads_per_user.well_formed()
        &&& self.threads_per_space.well_formed()
        &&& self@.well_formed()
    }
}

impl ThreadScoreContract {
    /// A well-formed ledger stands for a consistent `LedgerView`, of which
    /// the laws of the ledger speak.
    pub proof fn lemma_view_well_formed(&self)
        requires
            self.well_formed(),
        ensures
            self@.well_formed(),
    {
    }

    /// A ledger without any record.
    pub fn new() -> (c: Self)
        ensures
            c.well_formed(),
            c@ == LedgerView::empty(),
    {
        let c = ThreadScoreContract {
            user_metadata_by_id: Table::new(),
            thread_metadata_by_id: Table::new(),
            space_metadata_by_id: Table::new(),
            threads_per_user: Table::new(),
            threads_per_space: Table::new(),
        };
        assert(c@.space_order.no_duplicates());
        c
    }
}

} // verus!
