//! Threads: timed polls with two or three choices.

use crate::error::LedgerError;
use crate::models::contract::Ledger;
use crate::models::user::UserId;
use crate::rules::paging::{page, page_limit, page_start, records_of};
use crate::rules::threads::{
    after_create_thread, after_vote, create_thread_error, new_thread, total_has_room, vote_error,
};
use crate::text::{clone_opt_text, clone_texts, opt_text, texts};
use vstd::prelude::*;

verus! {

/// A thread's identifier.
pub type ThreadId = String;

/// Where a thread stands in time. It is derived from the clock, never stored.
#[derive(Clone, Copy, Debug, PartialEq, Eq, Structural)]
pub enum ThreadState {
    /// Voting has not started.
    Upcoming,
    /// Votes are accepted.
    Open,
    /// Voting has ended.
    Closed,
}

/// The state at time `now` of a thread that runs from `start_time` to
/// `end_time`: open strictly after the start and strictly before the end,
/// closed from the end on, upcoming up to and including the start.
pub open spec fn thread_state_at(start_time: u64, end_time: u64, now: u64) -> ThreadState {
    if now >= end_time {
        ThreadState::Closed
    } else if now > start_time {
        ThreadState::Open
    } else {
        ThreadState::Upcoming
    }
}

/// Computes `thread_state_at`.
pub fn thread_state(start_time: u64, end_time: u64, now: u64) -> (state: ThreadState)
    ensures
        state == thread_state_at(start_time, end_time, now),
{
    if now >= end_time {
        ThreadState::Closed
    } else if now > start_time {
        ThreadState::Open
    } else {
        ThreadState::Upcoming
    }
}

/// What a vote stands for.
pub struct VoteView {
    pub voter: Seq<char>,
    pub choice: u8,
    pub point: u32,
}

/// One user's vote: the chosen index and the points committed to it.
#[derive(Debug, PartialEq, Eq)]
pub struct Vote {
    pub voter: String,
    pub choice: u8,
    pub point: u32,
}

impl View for Vote {
    type V = VoteView;

    open spec fn view(&self) -> VoteView {
        VoteView { voter: self.voter@, choice: self.choice, point: self.point }
    }
}

impl Clone for Vote {
    fn clone(&self) -> (r: Self)
        ensures
            r@ == self@,
    {
        Vote { voter: self.voter.clone(), choice: self.choice, point: self.point }
    }
}

/// What each vote of a list stands for.
pub open spec fn vote_views(v: Seq<Vote>) -> Seq<VoteView> {
    Seq::new(v.len(), |i: int| v[i]@)
}

/// Each total of a list as a natural number.
pub open spec fn totals(v: Seq<u128>) -> Seq<nat> {
    Seq::new(v.len(), |i: int| v[i] as nat)
}

/// The points that the votes commit to `choice`, summed.
pub open spec fn tally(votes: Seq<VoteView>, choice: int) -> nat
    decreases votes.len(),
{
    if votes.len() == 0 {
        0
    } else {
        tally(votes.drop_last(), choice) + if votes.last().choice == choice {
            votes.last().point as nat
        } else {
            0
        }
    }
}

/// Whether `voter` has a vote in the list.
pub open spec fn has_voted(votes: Seq<VoteView>, voter: Seq<char>) -> bool {
    exists|i: int| 0 <= i < votes.len() && (#[trigger] votes[i]).voter == voter
}

/// What a thread record stands for.
pub struct ThreadView {
    pub thread_id: Seq<char>,
    pub title: Seq<char>,
    pub media_link: Option<Seq<char>>,
    pub creator_id: Seq<char>,
    pub content: Option<Seq<char>>,
    pub init_point: u32,
    pub space_name: Seq<char>,
    pub start_time: u64,
    pub end_time: u64,
    pub created_at: u64,
    pub choices_count: u8,
    pub choices_map: Seq<Seq<char>>,
    pub user_votes_map: Seq<VoteView>,
    pub choices_rating: Seq<nat>,
    pub last_id: u32,
}

/// A thread. `choices_map` holds the choices, each at its index;
/// `user_votes_map` holds the votes in the order in which they were cast, at
/// most one per voter; `choices_rating` holds, at each choice's index, the
/// points committed to that choice so far.
#[derive(Debug, PartialEq, Eq)]
pub struct ThreadMetadata {
    pub thread_id: ThreadId,
    pub title: String,
    pub media_link: Option<String>,
    pub creator_id: String,
    pub content: Option<String>,
    pub init_point: u32,
    pub space_name: String,
    pub start_time: u64,
    pub end_time: u64,
    pub created_at: u64,
    pub choices_count: u8,
    pub choices_map: Vec<String>,
    pub user_votes_map: Vec<Vote>,
    pub choices_rating: Vec<u128>,
    pub last_id: u32,
}

impl View for ThreadMetadata {
    type V = ThreadView;

    open spec fn view(&self) -> ThreadView {
        ThreadView {
            thread_id: self.thread_id@,
            title: self.title@,
            media_link: opt_text(self.media_link),
            creator_id: self.creator_id@,
            content: opt_text(self.content),
            init_point: self.init_point,
            space_name: self.space_name@,
            start_time: self.start_time,
            end_time: self.end_time,
            created_at: self.created_at,
            choices_count: self.choices_count,
            choices_map: texts(self.choices_map@),
            user_votes_map: vote_views(self.user_votes_map@),
            choices_rating: totals(self.choices_rating@),
            last_id: self.last_id,
        }
    }
}

impl ThreadMetadata {
    /// Whether the total of choice `choice_number` can take `point` more
    /// points without leaving the range of a total. A thread that the
    /// ledger keeps always can.
    pub fn has_room(&self, choice_number: u8, point: u32) -> (b: bool)
        ensures
            b == total_has_room(self@, choice_number, point),
    {
        let choice = choice_number as usize;
        if choice < self.choices_rating.len() {
            self.choices_rating[choice] <= u128::MAX - point as u128
        } else {
            true
        }
    }
}

/// A copy of a list of votes.
pub fn clone_votes(v: &Vec<Vote>) -> (r: Vec<Vote>)
    ensures
        vote_views(r@) == vote_views(v@),
{
    let mut r: Vec<Vote> = Vec::new();
    let mut i: usize = 0;
    while i < v.len()
        invariant
            i <= v@.len(),
            r@.len() == i,
            forall|j: int| 0 <= j < i ==> r@[j]@ == v@[j]@,
        decreases v@.len() - i,
    {
        r.push(v[i].clone());
        i = i + 1;
    }
    assert(vote_views(r@) =~= vote_views(v@));
    r
}

/// A copy of a list of totals.
pub fn clone_totals(v: &Vec<u128>) -> (r: Vec<u128>)
    ensures
        r@ == v@,
{
    let mut r: Vec<u128> = Vec::new();
    let mut i: usize = 0;
    while i < v.len()
        invariant
            i <= v@.len(),
            r@ == v@.subrange(0, i as int),
        decreases v@.len() - i,
    {
        r.push(v[i]);
        assert(r@ =~= v@.subrange(0, i + 1));
        i = i + 1;
    }
    assert(r@ =~= v@);
    r
}

impl Clone for ThreadMetadata {
    fn clone(&self) -> (r: Self)
        ensures
            r@ == self@,
    {
        ThreadMetadata {
            thread_id: self.thread_id.clone(),
            title: self.title.clone(),
            media_link: clone_opt_text(&self.media_link),
            creator_id: self.creator_id.clone(),
            content: clone_opt_text(&self.content),
            init_point: self.init_point,
            space_name: self.space_name.clone(),
            start_time: self.start_time,
            end_time: self.end_time,
            created_at: self.created_at,
            choices_count: self.choices_count,
            choices_map: clone_texts(&self.choices_map),
            user_votes_map: clone_votes(&self.user_votes_map),
            choices_rating: clone_totals(&self.choices_rating),
            last_id: self.last_id,
        }
    }
}

/// What each thread of a list stands for.
pub open spec fn thread_views(v: Seq<ThreadMetadata>) -> Seq<ThreadView> {
    Seq::new(v.len(), |i: int| v[i]@)
}

/// What `vote_thread` returns for an accepted vote.
pub open spec fn vote_marker() -> Seq<char> {
    "OK"@
}

/// Whether `voter` has a vote in the list.
pub fn holds_vote_of(votes: &Vec<Vote>, voter: &String) -> (b: bool)
    ensures
        b == has_voted(vote_views(votes@), voter@),
{
    let mut i: usize = 0;
    while i < votes.len()
        invariant
            i <= votes@.len(),
            forall|j: int| 0 <= j < i ==> vote_views(votes@)[j].voter != voter@,
        decreases votes@.len() - i,
    {
        if votes[i].voter == *voter {
            assert(vote_views(votes@)[i as int].voter == voter@);
            return true;
        }
        i = i + 1;
    }
    false
}

/// The operations on threads. The caller's identity and the current time in
/// milliseconds are arguments of the operations that depend on them.
pub trait ThreadFeatures: Ledger {
    /// Opens a thread for `caller` at time `now` and returns its record.
    ///
    /// The request is refused, and nothing changes, for the first of these
    /// reasons that holds: the number of options is not two or three; the
    /// caller is not registered; the caller is not verified; the caller's
    /// balance does not exceed `init_point`; a thread has the identifier
    /// derived from the title and the caller.
    ///
    /// Otherwise the thread is stored without votes and with a total of zero
    /// for each choice; its space is created, by the caller and at `now`, if
    /// it is new; the thread is listed under its creator and under its
    /// space; and the creator's balance is reduced by `init_point`.
    fn create_thread(
        &mut self,
        caller: UserId,
        now: u64,
        title: String,
        content: Option<String>,
        media_link: Option<String>,
        init_point: u32,
        space_name: String,
        start_time: u64,
        end_time: u64,
        options: Vec<String>,
    ) -> (r: Result<ThreadMetadata, LedgerError>)
        requires
            old(self).well_formed(),
        ensures
            final(self).well_formed(),
            match r {
                Ok(t) => {
                    &&& create_thread_error(
                        old(self)@,
                        caller@,
                        title@,
                        init_point,
                        options@.len(),
                    ) is None
                    &&& t@ == new_thread(
                        caller@,
                        now,
                        title@,
                        opt_text(content),
                        opt_text(media_link),
                        init_point,
                        space_name@,
                        start_time,
                        end_time,
                        texts(options@),
                    )
                    &&& final(self)@ == after_create_thread(old(self)@, t@)
                },
                Err(e) => {
                    &&& create_thread_error(
                        old(self)@,
                        caller@,
                        title@,
                        init_point,
                        options@.len(),
                    ) == Some(e)
                    &&& final(self)@ == old(self)@
                },
            },
    ;

    /// The record of the thread `thread_id`, if there is one.
    fn get_thread_metadata_by_thread_id(&self, thread_id: ThreadId) -> (r: Option<ThreadMetadata>)
        requires
            self.well_formed(),
        ensures
            match r {
                Some(t) => self@.threads.contains_key(thread_id@) && t@
                    == self@.threads[thread_id@],
                None => !self@.threads.contains_key(thread_id@),
            },
    ;

    /// A page of the threads that `user_id` opened, oldest first: it skips
    /// `start` threads (none by default) and holds up to `limit` of the
    /// following ones (five by default). Refused with `UserHasNoThreads`
    /// where the user never opened a thread.
    fn get_all_threads_per_user_own(
        &self,
        user_id: UserId,
        start: Option<u32>,
        limit: Option<u32>,
    ) -> (r: Result<Vec<ThreadMetadata>, LedgerError>)
        requires
            self.well_formed(),
        ensures
            match r {
                Ok(list) => {
                    &&& self@.threads_per_user.contains_key(user_id@)
                    &&& thread_views(list@) == records_of(
                        page(self@.threads_per_user[user_id@], page_start(start), page_limit(limit)),
                        self@.threads,
                    )
                },
                Err(e) => {
                    &&& e == LedgerError::UserHasNoThreads
                    &&& !self@.threads_per_user.contains_key(user_id@)
                },
            },
    ;

    /// The state of the thread `thread_id` at time `now`. Refused with
    /// `ThreadNotFound` where there is no such thread.
    fn get_thread_status(&self, thread_id: &ThreadId, now: u64) -> (r: Result<
        ThreadState,
        LedgerError,
    >)
        requires
            self.well_formed(),
        ensures
            match r {
                Ok(state) => {
                    &&& self@.threads.contains_key(thread_id@)
                    &&& state == thread_state_at(
                        self@.threads[thread_id@].start_time,
                        self@.threads[thread_id@].end_time,
                        now,
                    )
                },
                Err(e) => {
                    &&& e == LedgerError::ThreadNotFound
                    &&& !self@.threads.contains_key(thread_id@)
                },
            },
    ;

    /// Casts `voter`'s vote of `point` points for choice `choice_number` of
    /// the thread `thread_id` at time `now`, and returns the marker `"OK"`.
    ///
    /// The vote is refused, and nothing changes, for the first of these
    /// reasons that holds: `point` is not above ten; the voter is not
    /// registered; the voter's balance does not exceed `point`; there is no
    /// such thread; the thread is not open yet, or is closed; the thread has
    /// no such choice; the voter has voted on the thread before.
    ///
    /// Otherwise the thread holds the vote, the total of the choice has
    /// grown by `point`, and the voter's balance is reduced by `point`.
    fn vote_thread(
        &mut self,
        voter: UserId,
        now: u64,
        thread_id: ThreadId,
        choice_number: u8,
        point: u32,
    ) -> (r: Result<String, LedgerError>)
        requires
            old(self).well_formed(),
        ensures
            final(self).well_formed(),
            match r {
                Ok(marker) => {
                    &&& marker@ == vote_marker()
                    &&& vote_error(old(self)@, voter@, now, thread_id@, choice_number, point)
                        is None
                    &&& final(self)@ == after_vote(
                        old(self)@,
                        thread_id@,
                        VoteView { voter: voter@, choice: choice_number, point },
                    )
                },
                Err(e) => {
                    &&& vote_error(old(self)@, voter@, now, thread_id@, choice_number, point)
                        == Some(e)
                    &&& final(self)@ == old(self)@
                },
            },
    ;

    /// Resolving a thread is not defined: no winner is determined and no
    /// points move. Returns `None` and changes nothing.
    fn end_thread(&mut self, thread_id: ThreadId) -> (r: Option<String>)
        requires
            old(self).well_formed(),
        ensures
            final(self).well_formed(),
            r is None,
            final(self)@ == old(self)@,
    ;
}

} // verus!
