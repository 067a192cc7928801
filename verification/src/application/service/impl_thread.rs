//! Opening threads, reading them, and voting.

use crate::application::repository::{convert_title_to_id, convert_title_to_id_no_account};
use crate::error::LedgerError;
use crate::models::contract::{index_or_empty, Ledger, ThreadIds, ThreadScoreContract};
use crate::models::thread::{
    thread_state, thread_views, ThreadFeatures, ThreadId, ThreadMetadata, ThreadState, VoteView,
};
use crate::models::user::{UserId, UserMetadata};
use crate::rules::paging::{page_bounds, records_of};
use crate::rules::threads::{
    after_create_thread, after_vote, cast_vote, lemma_create_thread_keeps_well_formed,
    lemma_new_thread_wf, lemma_total_has_room, lemma_vote_keeps_well_formed, open_thread,
};
use crate::table::Table;
use vstd::prelude::*;
use vstd::string::StringExecFns;

verus! {

/// A copy of an optional user record.
fn clone_user(found: Option<&UserMetadata>) -> (r: Option<UserMetadata>)
    ensures
        match found {
            Some(u) => r is Some && r->0@ == u@,
            None => r is None,
        },
{
    match found {
        Some(u) => Some(u.clone()),
        None => None,
    }
}

/// A copy of an optional thread record.
fn clone_thread(found: Option<&ThreadMetadata>) -> (r: Option<ThreadMetadata>)
    ensures
        match found {
            Some(t) => r is Some && r->0@ == t@,
            None => r is None,
        },
{
    match found {
        Some(t) => Some(t.clone()),
        None => None,
    }
}

impl ThreadScoreContract {
    /// Lists `thread_id` last under `key` of an index.
    fn list_thread(index: &mut Table<ThreadIds>, key: String, thread_id: String)
        requires
            old(index).well_formed(),
        ensures
            final(index).well_formed(),
            final(index)@ == old(index)@.insert(
                key@,
                index_or_empty(old(index)@, key@).push(thread_id@),
            ),
    {
        let mut list = match index.get(&key) {
            Some(found) => found.clone(),
            None => ThreadIds { ids: Vec::new() },
        };
        let ghost before = list@;
        assert(before =~= index_or_empty(index@, key@));
        list.ids.push(thread_id);
        assert(list@ =~= before.push(thread_id@));
        index.insert(key, list);
    }
}

impl ThreadFeatures for ThreadScoreContract {
    fn create_thread(
        &mut self,
        caller: UserId,
        now: u64,
        title: String,
        content: Option<String>,
        media_link: Option<String>,
        init_point: u32,
        space_name: String,
        start_time: u64,
        end_time: u64,
        options: Vec<String>,
    ) -> (r: Result<ThreadMetadata, LedgerError>) {
        let ghost s0 = self@;
        let creator = clone_user(self.user_metadata_by_id.get(&caller));
        let thread_id = convert_title_to_id(&title, caller.clone());
        let id_taken = self.thread_metadata_by_id.contains(&thread_id);
        let space_id = convert_title_to_id_no_account(&space_name);
        let space_known = self.space_metadata_by_id.contains(&space_id);
        let opened = match open_thread(
            caller.clone(),
            now,
            title,
            content,
            media_link,
            init_point,
            space_name,
            start_time,
            end_time,
            options,
            creator,
            id_taken,
            space_known,
        ) {
            Ok(opened) => opened,
            Err(e) => {
                return Err(e);
            },
        };
        let ghost t = opened.thread@;
        proof {
            lemma_new_thread_wf(t);
            lemma_create_thread_keeps_well_formed(s0, t);
        }
        match opened.space {
            Some(space) => {
                self.space_metadata_by_id.insert(space_id.clone(), space);
            },
            None => {},
        }
        Self::list_thread(&mut self.threads_per_user, caller.clone(), thread_id.clone());
        Self::list_thread(&mut self.threads_per_space, space_id, thread_id.clone());
        self.thread_metadata_by_id.insert(thread_id, opened.thread.clone());
        self.user_metadata_by_id.insert(caller, opened.creator);
        assert(self@ == after_create_thread(s0, t));
        Ok(opened.thread)
    }

    fn get_thread_metadata_by_thread_id(&self, thread_id: ThreadId) -> (r: Option<ThreadMetadata>) {
        clone_thread(self.thread_metadata_by_id.get(&thread_id))
    }

    fn get_all_threads_per_user_own(
        &self,
        user_id: UserId,
        start: Option<u32>,
        limit: Option<u32>,
    ) -> (r: Result<Vec<ThreadMetadata>, LedgerError>) {
        let thread_array = match self.threads_per_user.get(&user_id) {
            Some(list) => list,
            None => {
                return Err(LedgerError::UserHasNoThreads);
            },
        };
        let (from, to) = page_bounds(thread_array.ids.len(), start, limit);
        let ghost ids = thread_array@.subrange(from as int, to as int);
        let mut result: Vec<ThreadMetadata> = Vec::new();
        let mut i: usize = from;
        while i < to
            invariant
                self.well_formed(),
                self@.threads_per_user.contains_key(user_id@),
                thread_array@ == self@.threads_per_user[user_id@],
                from <= i <= to <= thread_array@.len(),
                ids == thread_array@.subrange(from as int, to as int),
                result@.len() == i - from,
                forall|j: int| 0 <= j < i - from ==> result@[j]@ == self@.threads[ids[j]],
            decreases to - i,
        {
            let thread_id = &thread_array.ids[i];
            assert(thread_id@ == self@.users[user_id@].threads_list[i as int]);
            match self.thread_metadata_by_id.get(thread_id) {
                Some(found) => {
                    result.push(found.clone());
                },
                None => {
                    assert(false);
                },
            }
            i = i + 1;
        }
        assert(thread_views(result@) =~= records_of(ids, self@.threads));
        Ok(result)
    }

    fn get_thread_status(&self, thread_id: &ThreadId, now: u64) -> (r: Result<
        ThreadState,
        LedgerError,
    >) {
        match self.thread_metadata_by_id.get(thread_id) {
            Some(found) => Ok(thread_state(found.start_time, found.end_time, now)),
            None => Err(LedgerError::ThreadNotFound),
        }
    }

    fn vote_thread(
        &mut self,
        voter: UserId,
        now: u64,
        thread_id: ThreadId,
        choice_number: u8,
        point: u32,
    ) -> (r: Result<String, LedgerError>) {
        let ghost s0 = self@;
        let voter_record = clone_user(self.user_metadata_by_id.get(&voter));
        let thread = clone_thread(self.thread_metadata_by_id.get(&thread_id));
        proof {
            if thread is Some {
                assert(thread->0@.user_votes_map.len() == thread->0.user_votes_map.len());
                lemma_total_has_room(thread->0@, choice_number, point);
            }
        }
        let cast = match cast_vote(voter.clone(), now, choice_number, point, voter_record, thread) {
            Ok(cast) => cast,
            Err(e) => {
                return Err(e);
            },
        };
        let ghost vote = VoteView { voter: voter@, choice: choice_number, point };
        proof {
            lemma_vote_keeps_well_formed(s0, thread_id@, vote);
        }
        self.thread_metadata_by_id.insert(thread_id, cast.thread);
        self.user_metadata_by_id.insert(voter, cast.voter);
        assert(self@ == after_vote(s0, thread_id@, vote));
        Ok(String::from_str("OK"))
    }

    fn end_thread(&mut self, thread_id: ThreadId) -> (r: Option<String>) {
        None
    }
}

} // verus!
