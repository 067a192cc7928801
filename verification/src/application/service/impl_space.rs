//! Creating, listing and following spaces.

use crate::application::repository::convert_title_to_id_no_account;
use crate::error::LedgerError;
use crate::models::contract::{Ledger, ThreadScoreContract};
use crate::models::space::{space_views, SpaceFeatures, SpaceId, SpaceMetadata};
use crate::models::thread::ThreadId;
use crate::models::user::UserId;
use crate::rules::paging::{page_bounds, records_of};
use crate::rules::spaces::{
    lemma_create_space_keeps_well_formed, lemma_follow_space_keeps_well_formed,
};
use crate::text::{clone_texts, texts};
use vstd::prelude::*;
use vstd::string::StringExecFns;

verus! {

impl SpaceFeatures for ThreadScoreContract {
    fn create_space(&mut self, caller: UserId, now: u64, space_name: String) -> (r: Result<
        SpaceMetadata,
        LedgerError,
    >) {
        let space_id = convert_title_to_id_no_account(&space_name);
        if self.space_metadata_by_id.contains(&space_id) {
            return Err(LedgerError::AlreadyExists);
        }
        proof {
            lemma_create_space_keeps_well_formed(self@, caller@, now, space_name@);
        }
        let space = SpaceMetadata::new(caller, now, space_name);
        self.space_metadata_by_id.insert(space_id, space.clone());
        Ok(space)
    }

    fn get_space_metadata_by_space_id(&self, space_id: SpaceId) -> (r: Option<SpaceMetadata>) {
        match self.space_metadata_by_id.get(&space_id) {
            Some(sp) => Some(sp.clone()),
            None => None,
        }
    }

    fn get_all_threads_of_space_by_space_id(&self, space_id: SpaceId) -> (r: Vec<ThreadId>) {
        match self.threads_per_space.get(&space_id) {
            Some(list) => clone_texts(&list.ids),
            None => {
                let r: Vec<ThreadId> = Vec::new();
                assert(texts(r@) =~= Seq::<Seq<char>>::empty());
                r
            },
        }
    }

    fn get_all_spaces(&self, from_index: Option<u32>, limit: Option<u32>) -> (r: Vec<
        SpaceMetadata,
    >) {
        let (from, to) = page_bounds(self.space_metadata_by_id.len(), from_index, limit);
        let ghost ids = self@.space_order.subrange(from as int, to as int);
        let mut r: Vec<SpaceMetadata> = Vec::new();
        let mut i: usize = from;
        while i < to
            invariant
                self.well_formed(),
                from <= i <= to <= self@.space_order.len(),
                ids == self@.space_order.subrange(from as int, to as int),
                r@.len() == i - from,
                forall|j: int| 0 <= j < i - from ==> r@[j]@ == self@.spaces[ids[j]],
            decreases to - i,
        {
            r.push(self.space_metadata_by_id.value_at(i).clone());
            i = i + 1;
        }
        assert(space_views(r@) =~= records_of(ids, self@.spaces));
        r
    }

    fn follow_space(&mut self, caller: UserId, space_id: String) -> (r: Option<String>) {
        let mut space = match self.space_metadata_by_id.get(&space_id) {
            Some(sp) => sp.clone(),
            None => {
                return None;
            },
        };
        proof {
            lemma_follow_space_keeps_well_formed(self@, caller@, space_id@);
        }
        space.follow(caller);
        self.space_metadata_by_id.insert(space_id, space);
        Some(String::from_str("OK"))
    }

    fn get_followed_user_of_space_by_space_id(&self, space_id: SpaceId) -> (r: Vec<UserId>) {
        match self.space_metadata_by_id.get(&space_id) {
            Some(sp) => clone_texts(&sp.followed_users),
            None => {
                let r: Vec<UserId> = Vec::new();
                assert(texts(r@) =~= Seq::<Seq<char>>::empty());
                r
            },
        }
    }
}

} // verus!
