//! What holds of the ledger across operations.

use crate::application::repository::space_id_of;
use crate::error::LedgerError;
use crate::models::contract::{thread_wf, user_wf, LedgerView};
use crate::models::thread::{
    has_voted, tally, thread_state_at, ThreadState, ThreadView, VoteView,
};
use crate::rules::paging::{page, records_of};
use crate::rules::spaces::new_space;
use crate::rules::threads::{
    after_create_thread, after_vote, create_thread_error, vote_error, MIN_VOTE_POINT,
};
use vstd::prelude::*;

verus! {

/// The ledger after `voter` tried to commit `point` points to choice
/// `choice` of thread `thread_id` at time `now`: changed by the vote if it
/// was accepted, unchanged if it was refused.
pub open spec fn after_vote_attempt(
    s: LedgerView,
    voter: Seq<char>,
    now: u64,
    thread_id: Seq<char>,
    choice: u8,
    point: u32,
) -> LedgerView {
    if vote_error(s, voter, now, thread_id, choice, point) is None {
        after_vote(s, thread_id, VoteView { voter, choice, point })
    } else {
        s
    }
}

/// A thread is open strictly between its start and its end, closed from its
/// end on, and upcoming before that up to and including its start.
pub proof fn lemma_state_by_time(start_time: u64, end_time: u64, now: u64)
    ensures
        thread_state_at(start_time, end_time, now) == ThreadState::Open <==> start_time < now
            < end_time,
        thread_state_at(start_time, end_time, now) == ThreadState::Closed <==> now >= end_time,
        thread_state_at(start_time, end_time, now) == ThreadState::Upcoming <==> now <= start_time
            && now < end_time,
{
}

/// In a consistent ledger every user counts the threads the user lists,
/// every thread has as many choices as it counts, two or three, every vote
/// names one of them, and every total is the tally of the votes for its
/// choice.
pub proof fn lemma_records_are_consistent(s: LedgerView, user_id: Seq<char>, thread_id: Seq<char>)
    requires
        s.well_formed(),
    ensures
        s.users.contains_key(user_id) ==> s.users[user_id].threads_owned
            == s.users[user_id].threads_list.len(),
        s.threads.contains_key(thread_id) ==> {
            let t = s.threads[thread_id];
            &&& 2 <= t.choices_count <= 3
            &&& t.choices_map.len() == t.choices_count
            &&& t.choices_rating.len() == t.choices_count
            &&& forall|i: int|
                0 <= i < t.user_votes_map.len() ==> (#[trigger] t.user_votes_map[i]).choice
                    < t.choices_count
            &&& forall|c: int|
                0 <= c < t.choices_count ==> #[trigger] t.choices_rating[c] == tally(
                    t.user_votes_map,
                    c,
                )
        },
{
    if s.users.contains_key(user_id) {
        assert(user_wf(user_id, s.users[user_id]));
    }
    if s.threads.contains_key(thread_id) {
        assert(thread_wf(thread_id, s.threads[thread_id]));
    }
}

/// In a consistent ledger no voter has two votes on one thread.
pub proof fn lemma_one_vote_per_voter(s: LedgerView, thread_id: Seq<char>, i: int, j: int)
    requires
        s.well_formed(),
        s.threads.contains_key(thread_id),
        0 <= i < s.threads[thread_id].user_votes_map.len(),
        0 <= j < s.threads[thread_id].user_votes_map.len(),
        i != j,
    ensures
        s.threads[thread_id].user_votes_map[i].voter != s.threads[thread_id].user_votes_map[j].voter,
{
    assert(thread_wf(thread_id, s.threads[thread_id]));
    if i < j {
    } else {
        assert(j < i);
    }
}

/// An accepted vote is on record: afterwards the voter has a vote on the
/// thread.
pub proof fn lemma_vote_is_recorded(
    s: LedgerView,
    voter: Seq<char>,
    now: u64,
    thread_id: Seq<char>,
    choice: u8,
    point: u32,
)
    requires
        vote_error(s, voter, now, thread_id, choice, point) is None,
    ensures
        has_voted(
            after_vote_attempt(s, voter, now, thread_id, choice, point).threads[thread_id].user_votes_map,
            voter,
        ),
{
    let votes = s.threads[thread_id].user_votes_map;
    let vote = VoteView { voter, choice, point };
    assert(votes.push(vote)[votes.len() as int].voter == voter);
}

/// A vote stays on record: no later vote, by anyone on any thread, removes
/// it.
pub proof fn lemma_vote_stays_recorded(
    s: LedgerView,
    voter: Seq<char>,
    thread_id: Seq<char>,
    other_voter: Seq<char>,
    now: u64,
    other_thread: Seq<char>,
    choice: u8,
    point: u32,
)
    requires
        s.threads.contains_key(thread_id),
        has_voted(s.threads[thread_id].user_votes_map, voter),
    ensures
        after_vote_attempt(s, other_voter, now, other_thread, choice, point).threads.contains_key(
            thread_id,
        ),
        has_voted(
            after_vote_attempt(
                s,
                other_voter,
                now,
                other_thread,
                choice,
                point,
            ).threads[thread_id].user_votes_map,
            voter,
        ),
{
    let votes = s.threads[thread_id].user_votes_map;
    let i = choose|i: int| 0 <= i < votes.len() && (#[trigger] votes[i]).voter == voter;
    let vote = VoteView { voter: other_voter, choice, point };
    assert(votes.push(vote)[i].voter == voter);
}

/// A vote stays on record when a thread is opened.
pub proof fn lemma_vote_survives_new_thread(
    s: LedgerView,
    voter: Seq<char>,
    thread_id: Seq<char>,
    t: ThreadView,
)
    requires
        s.threads.contains_key(thread_id),
        has_voted(s.threads[thread_id].user_votes_map, voter),
        !s.threads.contains_key(t.thread_id),
    ensures
        after_create_thread(s, t).threads.contains_key(thread_id),
        has_voted(after_create_thread(s, t).threads[thread_id].user_votes_map, voter),
{
}

/// Exactly one vote: once a voter has a vote on a thread, every further
/// attempt of that voter to vote on that thread is refused and changes
/// nothing, neither a balance nor a total. The refusal names the earlier
/// vote wherever nothing else is wrong with the attempt: the points exceed
/// the minimum, the balance exceeds the points, the thread is open, and the
/// choice exists.
pub proof fn lemma_second_vote_refused(
    s: LedgerView,
    voter: Seq<char>,
    now: u64,
    thread_id: Seq<char>,
    choice: u8,
    point: u32,
)
    requires
        s.threads.contains_key(thread_id),
        has_voted(s.threads[thread_id].user_votes_map, voter),
    ensures
        vote_error(s, voter, now, thread_id, choice, point) is Some,
        after_vote_attempt(s, voter, now, thread_id, choice, point) == s,
        ({
            &&& point > MIN_VOTE_POINT
            &&& s.users.contains_key(voter)
            &&& s.users[voter].total_point > point
            &&& thread_state_at(
                s.threads[thread_id].start_time,
                s.threads[thread_id].end_time,
                now,
            ) == ThreadState::Open
            &&& choice < s.threads[thread_id].choices_map.len()
        }) ==> vote_error(s, voter, now, thread_id, choice, point) == Some(
            LedgerError::AlreadyVoted,
        ),
{
}

/// Opening a thread costs its creator exactly the stake, and costs nobody
/// else anything.
pub proof fn lemma_create_thread_pays_stake(
    s: LedgerView,
    t: ThreadView,
    options: nat,
    other: Seq<char>,
)
    requires
        create_thread_error(s, t.creator_id, t.title, t.init_point, options) is None,
    ensures
        after_create_thread(s, t).users[t.creator_id].total_point + t.init_point
            == s.users[t.creator_id].total_point,
        t.init_point > 0 ==> after_create_thread(s, t).users[t.creator_id].total_point
            < s.users[t.creator_id].total_point,
        other != t.creator_id && s.users.contains_key(other) ==> after_create_thread(
            s,
            t,
        ).users[other] == s.users[other],
{
}

/// An accepted vote costs the voter exactly its points, which is a strict
/// loss, and costs nobody else anything.
pub proof fn lemma_vote_pays_points(
    s: LedgerView,
    voter: Seq<char>,
    now: u64,
    thread_id: Seq<char>,
    choice: u8,
    point: u32,
    other: Seq<char>,
)
    requires
        vote_error(s, voter, now, thread_id, choice, point) is None,
    ensures
        after_vote_attempt(s, voter, now, thread_id, choice, point).users[voter].total_point
            + point == s.users[voter].total_point,
        after_vote_attempt(s, voter, now, thread_id, choice, point).users[voter].total_point
            < s.users[voter].total_point,
        other != voter && s.users.contains_key(other) ==> after_vote_attempt(
            s,
            voter,
            now,
            thread_id,
            choice,
            point,
        ).users[other] == s.users[other],
{
}

/// An accepted vote adds exactly its points to the total of its choice and
/// leaves the other totals of the thread as they were.
pub proof fn lemma_vote_adds_to_total(
    s: LedgerView,
    voter: Seq<char>,
    now: u64,
    thread_id: Seq<char>,
    choice: u8,
    point: u32,
    c: int,
)
    requires
        s.well_formed(),
        vote_error(s, voter, now, thread_id, choice, point) is None,
        0 <= c < s.threads[thread_id].choices_count,
    ensures
        after_vote_attempt(s, voter, now, thread_id, choice, point).threads[thread_id].choices_rating[c]
            == s.threads[thread_id].choices_rating[c] + if c == choice {
            point as int
        } else {
            0
        },
{
    assert(thread_wf(thread_id, s.threads[thread_id]));
}

/// A space is created once: when two threads are opened, one after the
/// other, under a name that no space has yet, the ledger has gained exactly
/// one space, created with the first thread, and that space lists exactly
/// the two threads, in the order in which they were opened.
pub proof fn lemma_two_threads_share_one_space(s: LedgerView, first: ThreadView, second: ThreadView)
    requires
        s.well_formed(),
        first.space_name == second.space_name,
        !s.spaces.contains_key(space_id_of(first.space_name)),
    ensures
        ({
            let sid = space_id_of(first.space_name);
            let s2 = after_create_thread(after_create_thread(s, first), second);
            &&& s2.spaces == s.spaces.insert(
                sid,
                new_space(first.creator_id, first.created_at, first.space_name),
            )
            &&& s2.space_order == s.space_order.push(sid)
            &&& s2.threads_per_space[sid] == seq![first.thread_id, second.thread_id]
        }),
{
    let sid = space_id_of(first.space_name);
    let s1 = after_create_thread(s, first);
    let s2 = after_create_thread(s1, second);
    assert(!s.threads_per_space.contains_key(sid));
    assert(s1.spaces.contains_key(sid));
    assert(s2.threads_per_space[sid] =~= seq![first.thread_id, second.thread_id]);
}

/// A thread that was opened reads back as it was returned.
pub proof fn lemma_created_thread_reads_back(s: LedgerView, t: ThreadView)
    ensures
        after_create_thread(s, t).threads.contains_key(t.thread_id),
        after_create_thread(s, t).threads[t.thread_id] == t,
{
}

/// Two pages that follow one another make up the one page that spans both.
pub proof fn lemma_pages_join<T>(items: Seq<T>, start: nat, first: nat, second: nat)
    ensures
        page(items, start, first) + page(items, start + first, second) == page(
            items,
            start,
            first + second,
        ),
{
    assert(page(items, start, first) + page(items, start + first, second) =~= page(
        items,
        start,
        first + second,
    ));
}

/// A page that starts at the beginning and is as long as the list is the
/// list.
pub proof fn lemma_full_page<T>(items: Seq<T>, limit: nat)
    requires
        items.len() <= limit,
    ensures
        page(items, 0, limit) == items,
{
    assert(page(items, 0, limit) =~= items);
}

/// Pages of a list without duplicates that do not overlap share no item.
pub proof fn lemma_pages_disjoint<T>(
    items: Seq<T>,
    start: nat,
    first: nat,
    second: nat,
    x: T,
)
    requires
        items.no_duplicates(),
    ensures
        !(page(items, start, first).contains(x) && page(items, start + first, second).contains(x)),
{
    let a = page(items, start, first);
    let b = page(items, start + first, second);
    if a.contains(x) && b.contains(x) {
        let i = a.index_of(x);
        let j = b.index_of(x);
        assert(a[i] == x && b[j] == x);
        assert(items[start + i] == x);
        assert(items[start + first + j] == x);
    }
}

/// The threads of a user are read page by page without loss or repetition:
/// two pages that follow one another hold what the page spanning both
/// holds, in the same order; they share no thread; and a first page of five
/// with a second page of five holds all the threads of a user who opened at
/// most ten.
pub proof fn lemma_user_pages_cover(
    s: LedgerView,
    user_id: Seq<char>,
    start: nat,
    first: nat,
    second: nat,
    x: Seq<char>,
)
    requires
        s.well_formed(),
        s.threads_per_user.contains_key(user_id),
    ensures
        ({
            let ids = s.threads_per_user[user_id];
            &&& records_of(page(ids, start, first), s.threads) + records_of(
                page(ids, start + first, second),
                s.threads,
            ) == records_of(page(ids, start, first + second), s.threads)
            &&& !(page(ids, start, first).contains(x) && page(ids, start + first, second).contains(
                x,
            ))
            &&& ids.len() <= 10 ==> records_of(page(ids, 0, 5), s.threads) + records_of(
                page(ids, 5, 5),
                s.threads,
            ) == records_of(ids, s.threads)
        }),
{
    let ids = s.threads_per_user[user_id];
    lemma_pages_join(ids, start, first, second);
    assert(records_of(page(ids, start, first), s.threads) + records_of(
        page(ids, start + first, second),
        s.threads,
    ) =~= records_of(page(ids, start, first + second), s.threads));
    assert(ids.no_duplicates());
    lemma_pages_disjoint(ids, start, first, second, x);
    if ids.len() <= 10 {
        lemma_pages_join(ids, 0, 5, 5);
        lemma_full_page(ids, 10);
        assert(records_of(page(ids, 0, 5), s.threads) + records_of(page(ids, 5, 5), s.threads)
            =~= records_of(ids, s.threads));
    }
}

} // verus!
