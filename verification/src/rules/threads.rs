//! Opening threads and voting on them.

use crate::application::repository::{convert_title_to_id, space_id_of, thread_id_of};
use crate::error::LedgerError;
use crate::models::contract::{index_or_empty, thread_wf, votes_wf, LedgerView};
use crate::models::space::SpaceMetadata;
use crate::models::thread::{
    has_voted, holds_vote_of, tally, thread_state, thread_state_at, totals,
    ThreadMetadata, ThreadState, ThreadView, Vote, VoteView,
};
use crate::models::user::{debited, UserId, UserMetadata, UserRoles, UserView};
use crate::rules::spaces::{after_create_space, lemma_order_after_create_space, new_space};
use crate::text::{lemma_push_contains, lemma_push_no_duplicates, opt_text, texts};
use vstd::prelude::*;

verus! {

/// A vote must commit more points than this.
pub const MIN_VOTE_POINT: u32 = 10;

/// The record under `key`, if the map has one.
pub open spec fn lookup<T>(records: Map<Seq<char>, T>, key: Seq<char>) -> Option<T> {
    if records.contains_key(key) {
        Some(records[key])
    } else {
        None
    }
}

/// What an optional record stands for.
pub open spec fn opt_view<T: View>(o: Option<T>) -> Option<T::V> {
    match o {
        Some(x) => Some(x@),
        None => None,
    }
}

/// Why a thread with `options` choices and a stake of `init_point` may not
/// be opened by a caller whose record is `creator`, where `id_taken` says
/// whether a thread has the new thread's identifier; `None` if it may. The
/// checks are made in this order, and the first that fails decides.
pub open spec fn create_refusal(
    options: nat,
    creator: Option<UserView>,
    init_point: u32,
    id_taken: bool,
) -> Option<LedgerError> {
    if !(1 < options < 4) {
        Some(LedgerError::InvalidChoiceCount)
    } else if creator is None {
        Some(LedgerError::UserNotRegistered)
    } else if creator->0.role != UserRoles::Verified {
        Some(LedgerError::NotVerified)
    } else if !(creator->0.total_point > init_point) {
        Some(LedgerError::InsufficientStake)
    } else if id_taken {
        Some(LedgerError::ThreadAlreadyExists)
    } else {
        None
    }
}

/// Why `caller` may not open a thread under `title` with a stake of
/// `init_point` and `options` choices in the ledger `s`; `None` if `caller`
/// may.
pub open spec fn create_thread_error(
    s: LedgerView,
    caller: Seq<char>,
    title: Seq<char>,
    init_point: u32,
    options: nat,
) -> Option<LedgerError> {
    create_refusal(
        options,
        lookup(s.users, caller),
        init_point,
        s.threads.contains_key(thread_id_of(title, caller)),
    )
}

/// The record of the thread that `caller` opens at time `now`: no votes
/// yet, and a total of zero for each choice.
pub open spec fn new_thread(
    caller: Seq<char>,
    now: u64,
    title: Seq<char>,
    content: Option<Seq<char>>,
    media_link: Option<Seq<char>>,
    init_point: u32,
    space_name: Seq<char>,
    start_time: u64,
    end_time: u64,
    options: Seq<Seq<char>>,
) -> ThreadView {
    ThreadView {
        thread_id: thread_id_of(title, caller),
        title,
        media_link,
        creator_id: caller,
        content,
        init_point,
        space_name,
        start_time,
        end_time,
        created_at: now,
        choices_count: options.len() as u8,
        choices_map: options,
        user_votes_map: Seq::empty(),
        choices_rating: Seq::new(options.len(), |c: int| 0nat),
        last_id: 0,
    }
}

/// The creator's record after the thread `t` was opened: the stake is paid,
/// and the thread is the newest of the creator's threads, which the record
/// counts.
pub open spec fn with_thread(u: UserView, t: ThreadView) -> UserView {
    UserView {
        total_point: (u.total_point - t.init_point) as nat,
        threads_owned: u.threads_list.len() + 1,
        threads_list: u.threads_list.push(t.thread_id),
        ..u
    }
}

/// The ledger after the thread `t` was opened by its creator at the time of
/// its creation: the thread is stored; its space is created first if no
/// space has its identifier; the thread is listed last under its creator and
/// under its space; the creator owns one thread more and has paid the stake.
pub open spec fn after_create_thread(s: LedgerView, t: ThreadView) -> LedgerView {
    let caller = t.creator_id;
    let sid = space_id_of(t.space_name);
    let with_space = if s.spaces.contains_key(sid) {
        s
    } else {
        after_create_space(s, new_space(caller, t.created_at, t.space_name))
    };
    LedgerView {
        users: s.users.insert(caller, with_thread(s.users[caller], t)),
        threads: s.threads.insert(t.thread_id, t),
        threads_per_user: s.threads_per_user.insert(
            caller,
            index_or_empty(s.threads_per_user, caller).push(t.thread_id),
        ),
        threads_per_space: s.threads_per_space.insert(
            sid,
            index_or_empty(s.threads_per_space, sid).push(t.thread_id),
        ),
        ..with_space
    }
}

/// Why `voter`, whose record is `voter_record`, may not commit `point`
/// points to choice `choice` of `thread` at time `now`; `None` if `voter`
/// may. The checks are made in this order, and the first that fails decides.
pub open spec fn vote_refusal(
    voter: Seq<char>,
    now: u64,
    choice: u8,
    point: u32,
    voter_record: Option<UserView>,
    thread: Option<ThreadView>,
) -> Option<LedgerError> {
    if !(point > MIN_VOTE_POINT) {
        Some(LedgerError::PointTooLow)
    } else if voter_record is None {
        Some(LedgerError::UserNotRegistered)
    } else if !(voter_record->0.total_point > point) {
        Some(LedgerError::InsufficientBalance)
    } else if thread is None {
        Some(LedgerError::ThreadNotFound)
    } else {
        let t = thread->0;
        let state = thread_state_at(t.start_time, t.end_time, now);
        if state == ThreadState::Upcoming {
            Some(LedgerError::ThreadNotOpen)
        } else if state == ThreadState::Closed {
            Some(LedgerError::ThreadClosed)
        } else if !(choice < t.choices_map.len()) {
            Some(LedgerError::InvalidChoice)
        } else if has_voted(t.user_votes_map, voter) {
            Some(LedgerError::AlreadyVoted)
        } else {
            None
        }
    }
}

/// Why `voter` may not commit `point` points to choice `choice` of thread
/// `thread_id` at time `now` in the ledger `s`; `None` if `voter` may.
pub open spec fn vote_error(
    s: LedgerView,
    voter: Seq<char>,
    now: u64,
    thread_id: Seq<char>,
    choice: u8,
    point: u32,
) -> Option<LedgerError> {
    vote_refusal(voter, now, choice, point, lookup(s.users, voter), lookup(s.threads, thread_id))
}

/// A thread after `vote` was cast on it: the vote is its last, and the total
/// of the chosen index, where the thread keeps one, has grown by the vote's
/// points.
pub open spec fn with_vote(t: ThreadView, vote: VoteView) -> ThreadView {
    ThreadView {
        user_votes_map: t.user_votes_map.push(vote),
        choices_rating: if vote.choice < t.choices_rating.len() {
            t.choices_rating.update(
                vote.choice as int,
                (t.choices_rating[vote.choice as int] + vote.point) as nat,
            )
        } else {
            t.choices_rating
        },
        ..t
    }
}

/// The ledger after `vote` was cast on thread `thread_id`: the thread holds
/// the vote, and the voter has paid its points.
pub open spec fn after_vote(s: LedgerView, thread_id: Seq<char>, vote: VoteView) -> LedgerView {
    LedgerView {
        users: s.users.insert(vote.voter, debited(s.users[vote.voter], vote.point as nat)),
        threads: s.threads.insert(thread_id, with_vote(s.threads[thread_id], vote)),
        ..s
    }
}

/// Whether adding `point` to the total that `t` keeps for `choice` stays
/// within the range of a total. It does for every consistent thread.
pub open spec fn total_has_room(t: ThreadView, choice: u8, point: u32) -> bool {
    choice < t.choices_rating.len() ==> t.choices_rating[choice as int] + point <= u128::MAX
}

/// What opening a thread writes: the thread, the creator's updated record,
/// and the thread's space if it is new.
pub struct OpenedThread {
    pub thread: ThreadMetadata,
    pub creator: UserMetadata,
    pub space: Option<SpaceMetadata>,
}

/// What casting a vote writes: the updated thread and the voter's updated
/// record.
pub struct CastVote {
    pub thread: ThreadMetadata,
    pub voter: UserMetadata,
}

/// A total of zero for each of `n` choices.
fn zero_totals(n: usize) -> (r: Vec<u128>)
    ensures
        totals(r@) == Seq::new(n as nat, |c: int| 0nat),
{
    let mut r: Vec<u128> = Vec::new();
    let mut i: usize = 0;
    while i < n
        invariant
            i <= n,
            r@.len() == i,
            forall|j: int| 0 <= j < i ==> r@[j] == 0,
        decreases n - i,
    {
        r.push(0);
        i = i + 1;
    }
    assert(totals(r@) =~= Seq::new(n as nat, |c: int| 0nat));
    r
}

/// Decides whether `caller` may open the thread, and if so builds what is
/// to be written. `creator` is the caller's record, if the caller has one;
/// `id_taken` says whether a thread has the identifier derived from `title`
/// and `caller`; `space_known` says whether a space has the identifier
/// derived from `space_name`.
pub fn open_thread(
    caller: UserId,
    now: u64,
    title: String,
    content: Option<String>,
    media_link: Option<String>,
    init_point: u32,
    space_name: String,
    start_time: u64,
    end_time: u64,
    options: Vec<String>,
    creator: Option<UserMetadata>,
    id_taken: bool,
    space_known: bool,
) -> (r: Result<OpenedThread, LedgerError>)
    ensures
        match r {
            Ok(opened) => {
                &&& create_refusal(options@.len(), opt_view(creator), init_point, id_taken)
                    is None
                &&& opened.thread@ == new_thread(
                    caller@,
                    now,
                    title@,
                    opt_text(content),
                    opt_text(media_link),
                    init_point,
                    space_name@,
                    start_time,
                    end_time,
                    texts(options@),
                )
                &&& opened.creator@ == with_thread(creator->0@, opened.thread@)
                &&& opt_view(opened.space) == if space_known {
                    None
                } else {
                    Some(new_space(caller@, now, space_name@))
                }
            },
            Err(e) => create_refusal(options@.len(), opt_view(creator), init_point, id_taken)
                == Some(e),
        },
{
    let count = options.len();
    if !(count > 1 && count < 4) {
        return Err(LedgerError::InvalidChoiceCount);
    }
    let mut creator = match creator {
        Some(found) => found,
        None => {
            return Err(LedgerError::UserNotRegistered);
        },
    };
    match creator.role {
        UserRoles::Verified => {},
        UserRoles::Unverified => {
            return Err(LedgerError::NotVerified);
        },
    }
    let ghost before = creator@;
    if creator.debit(init_point).is_err() {
        return Err(LedgerError::InsufficientStake);
    }
    if id_taken {
        return Err(LedgerError::ThreadAlreadyExists);
    }
    let thread_id = convert_title_to_id(&title, caller.clone());
    let space = if space_known {
        None
    } else {
        Some(SpaceMetadata::new(caller.clone(), now, space_name.clone()))
    };
    let thread = ThreadMetadata {
        thread_id: thread_id.clone(),
        title,
        media_link,
        creator_id: caller,
        content,
        init_point,
        space_name,
        start_time,
        end_time,
        created_at: now,
        choices_count: count as u8,
        choices_map: options,
        user_votes_map: Vec::new(),
        choices_rating: zero_totals(count),
        last_id: 0,
    };
    assert(thread@.user_votes_map =~= Seq::<VoteView>::empty());
    creator.threads_list.push(thread_id);
    assert(creator@.threads_list =~= before.threads_list.push(thread@.thread_id));
    creator.threads_owned = creator.threads_list.len() as u64;
    Ok(OpenedThread { thread, creator, space })
}

/// Decides whether `voter` may cast the vote at time `now`, and if so
/// builds what is to be written. `voter_record` is the voter's record, if
/// the voter has one; `thread` is the thread voted on, if it exists.
pub fn cast_vote(
    voter: UserId,
    now: u64,
    choice_number: u8,
    point: u32,
    voter_record: Option<UserMetadata>,
    thread: Option<ThreadMetadata>,
) -> (r: Result<CastVote, LedgerError>)
    requires
        thread is Some ==> total_has_room(thread->0@, choice_number, point),
    ensures
        match r {
            Ok(cast) => {
                &&& vote_refusal(
                    voter@,
                    now,
                    choice_number,
                    point,
                    opt_view(voter_record),
                    opt_view(thread),
                ) is None
                &&& cast.thread@ == with_vote(
                    thread->0@,
                    VoteView { voter: voter@, choice: choice_number, point },
                )
                &&& cast.voter@ == debited(voter_record->0@, point as nat)
            },
            Err(e) => vote_refusal(
                voter@,
                now,
                choice_number,
                point,
                opt_view(voter_record),
                opt_view(thread),
            ) == Some(e),
        },
{
    if !(point > MIN_VOTE_POINT) {
        return Err(LedgerError::PointTooLow);
    }
    let mut voter_record = match voter_record {
        Some(found) => found,
        None => {
            return Err(LedgerError::UserNotRegistered);
        },
    };
    match voter_record.debit(point) {
        Ok(_) => {},
        Err(e) => {
            return Err(e);
        },
    }
    let mut thread = match thread {
        Some(found) => found,
        None => {
            return Err(LedgerError::ThreadNotFound);
        },
    };
    match thread_state(thread.start_time, thread.end_time, now) {
        ThreadState::Open => {},
        ThreadState::Upcoming => {
            return Err(LedgerError::ThreadNotOpen);
        },
        ThreadState::Closed => {
            return Err(LedgerError::ThreadClosed);
        },
    }
    let choice = choice_number as usize;
    if !(choice < thread.choices_map.len()) {
        return Err(LedgerError::InvalidChoice);
    }
    if holds_vote_of(&thread.user_votes_map, &voter) {
        return Err(LedgerError::AlreadyVoted);
    }
    let ghost t = thread@;
    let ghost vote = VoteView { voter: voter@, choice: choice_number, point };
    if choice < thread.choices_rating.len() {
        let total = thread.choices_rating[choice];
        assert(total as nat == t.choices_rating[choice as int]);
        thread.choices_rating.set(choice, total + point as u128);
    }
    thread.user_votes_map.push(Vote { voter, choice: choice_number, point });
    assert(thread@.user_votes_map =~= t.user_votes_map.push(vote));
    assert(thread@.choices_rating =~= with_vote(t, vote).choices_rating);
    Ok(CastVote { thread, voter: voter_record })
}

/// A new thread with two or three choices is consistent.
pub proof fn lemma_new_thread_wf(t: ThreadView)
    requires
        1 < t.choices_map.len() < 4,
        t.thread_id == thread_id_of(t.title, t.creator_id),
        t.choices_count == t.choices_map.len(),
        t.user_votes_map.len() == 0,
        t.choices_rating == Seq::new(t.choices_map.len(), |c: int| 0nat),
    ensures
        thread_wf(t.thread_id, t),
{
}

/// One more vote adds its points to the tally of its choice, and to no
/// other.
pub proof fn lemma_tally_push(votes: Seq<VoteView>, vote: VoteView, choice: int)
    ensures
        tally(votes.push(vote), choice) == tally(votes, choice) + if vote.choice == choice {
            vote.point as nat
        } else {
            0
        },
{
    assert(votes.push(vote).drop_last() =~= votes);
}

/// No tally exceeds what the votes could commit at most.
pub proof fn lemma_tally_bound(votes: Seq<VoteView>, choice: int)
    ensures
        tally(votes, choice) <= votes.len() * 0xffff_ffff,
    decreases votes.len(),
{
    if votes.len() > 0 {
        lemma_tally_bound(votes.drop_last(), choice);
    }
}

/// A consistent thread whose votes fit in memory has room in each total for
/// one more vote.
pub proof fn lemma_total_has_room(t: ThreadView, choice: u8, point: u32)
    requires
        thread_wf(t.thread_id, t),
        t.user_votes_map.len() <= usize::MAX,
    ensures
        total_has_room(t, choice, point),
{
    if choice < t.choices_rating.len() {
        lemma_tally_bound(t.user_votes_map, choice as int);
        assert(t.choices_rating[choice as int] == tally(t.user_votes_map, choice as int));
        assert(t.user_votes_map.len() * 0xffff_ffff <= 0xffff_ffff_ffff_ffff * 0xffff_ffff);
    }
}

/// A valid vote by someone who has not voted keeps a thread consistent.
pub proof fn lemma_with_vote_wf(t: ThreadView, vote: VoteView)
    requires
        thread_wf(t.thread_id, t),
        vote.choice < t.choices_count,
        !has_voted(t.user_votes_map, vote.voter),
    ensures
        thread_wf(t.thread_id, with_vote(t, vote)),
{
    let t2 = with_vote(t, vote);
    assert forall|c: int| 0 <= c < t2.choices_count implies #[trigger] t2.choices_rating[c]
        == tally(t2.user_votes_map, c) by {
        lemma_tally_push(t.user_votes_map, vote, c);
    }
    assert(votes_wf(t2.user_votes_map, t2.choices_count as int));
}

/// Opening a thread under an unused identifier, by a registered user, keeps
/// the ledger consistent.
pub proof fn lemma_create_thread_keeps_well_formed(s: LedgerView, t: ThreadView)
    requires
        s.well_formed(),
        thread_wf(t.thread_id, t),
        s.users.contains_key(t.creator_id),
        !s.threads.contains_key(t.thread_id),
    ensures
        after_create_thread(s, t).well_formed(),
{
    let s2 = after_create_thread(s, t);
    let caller = t.creator_id;
    let id = t.thread_id;
    let sid = space_id_of(t.space_name);
    let u = s.users[caller];
    let user_list = index_or_empty(s.threads_per_user, caller);
    let space_list = index_or_empty(s.threads_per_space, sid);
    assert(user_list =~= u.threads_list);
    assert(!u.threads_list.contains(id)) by {
        if u.threads_list.contains(id) {
            let i = u.threads_list.index_of(id);
            assert(s.threads.contains_key(u.threads_list[i]));
        }
    }
    assert(!space_list.contains(id)) by {
        if space_list.contains(id) {
            let i = space_list.index_of(id);
            assert(s.threads.contains_key(s.threads_per_space[sid][i]));
        }
    }
    lemma_push_no_duplicates(u.threads_list, id);
    lemma_push_no_duplicates(space_list, id);
    if !s.spaces.contains_key(sid) {
        lemma_order_after_create_space(s, new_space(caller, t.created_at, t.space_name));
    }
    assert(s2.records_wf());
    assert(s2.user_index_wf());
    assert(s2.ownership_wf()) by {
        assert forall|v: Seq<char>, i: int|
            s2.users.contains_key(v) && 0 <= i < s2.users[v].threads_list.len() implies {
            &&& s2.threads.contains_key(#[trigger] s2.users[v].threads_list[i])
            &&& s2.threads[s2.users[v].threads_list[i]].creator_id == v
        } by {
            if v == caller && i == u.threads_list.len() {
            } else {
                assert(s.threads.contains_key(s.users[v].threads_list[i]));
            }
        }
        assert forall|x: Seq<char>| #[trigger] s2.threads.contains_key(x) implies {
            &&& s2.users.contains_key(s2.threads[x].creator_id)
            &&& s2.users[s2.threads[x].creator_id].threads_list.contains(x)
        } by {
            lemma_push_contains(u.threads_list, id, x);
            if x != id {
                assert(s.threads.contains_key(x));
            }
        }
    }
    assert(s2.space_index_wf()) by {
        assert forall|q: Seq<char>| #[trigger] s2.threads_per_space.contains_key(q) implies {
            &&& s2.spaces.contains_key(q)
            &&& s2.threads_per_space[q].no_duplicates()
        } by {
            if q != sid {
                assert(s.threads_per_space.contains_key(q));
            }
        }
        assert forall|q: Seq<char>, i: int|
            s2.threads_per_space.contains_key(q) && 0 <= i < s2.threads_per_space[q].len() implies {
            &&& s2.threads.contains_key(#[trigger] s2.threads_per_space[q][i])
            &&& space_id_of(s2.threads[s2.threads_per_space[q][i]].space_name) == q
        } by {
            if q == sid && i == space_list.len() {
            } else {
                assert(s.threads_per_space.contains_key(q));
                assert(s.threads.contains_key(s.threads_per_space[q][i]));
            }
        }
        assert forall|x: Seq<char>| #[trigger] s2.threads.contains_key(x) implies {
            &&& s2.threads_per_space.contains_key(space_id_of(s2.threads[x].space_name))
            &&& s2.threads_per_space[space_id_of(s2.threads[x].space_name)].contains(x)
        } by {
            lemma_push_contains(space_list, id, x);
            if x != id {
                assert(s.threads.contains_key(x));
            }
        }
    }
}

/// A valid vote by a registered user who has not voted on the thread keeps
/// the ledger consistent.
pub proof fn lemma_vote_keeps_well_formed(s: LedgerView, thread_id: Seq<char>, vote: VoteView)
    requires
        s.well_formed(),
        s.users.contains_key(vote.voter),
        s.threads.contains_key(thread_id),
        vote.choice < s.threads[thread_id].choices_count,
        !has_voted(s.threads[thread_id].user_votes_map, vote.voter),
    ensures
        after_vote(s, thread_id, vote).well_formed(),
{
    let s2 = after_vote(s, thread_id, vote);
    let t = s.threads[thread_id];
    lemma_with_vote_wf(t, vote);
    assert(s2.threads.dom() =~= s.threads.dom());
    assert(s2.users.dom() =~= s.users.dom());
    assert(s2.records_wf());
    assert(s2.user_index_wf());
    assert(s2.ownership_wf()) by {
        assert forall|v: Seq<char>, i: int|
            s2.users.contains_key(v) && 0 <= i < s2.users[v].threads_list.len() implies {
            &&& s2.threads.contains_key(#[trigger] s2.users[v].threads_list[i])
            &&& s2.threads[s2.users[v].threads_list[i]].creator_id == v
        } by {
            assert(s.threads.contains_key(s.users[v].threads_list[i]));
        }
        assert forall|x: Seq<char>| #[trigger] s2.threads.contains_key(x) implies {
            &&& s2.users.contains_key(s2.threads[x].creator_id)
            &&& s2.users[s2.threads[x].creator_id].threads_list.contains(x)
        } by {
            assert(s.threads.contains_key(x));
        }
    }
    assert(s2.space_index_wf()) by {
        assert forall|q: Seq<char>, i: int|
            s2.threads_per_space.contains_key(q) && 0 <= i < s2.threads_per_space[q].len() implies {
            &&& s2.threads.contains_key(#[trigger] s2.threads_per_space[q][i])
            &&& space_id_of(s2.threads[s2.threads_per_space[q][i]].space_name) == q
        } by {
            assert(s.threads.contains_key(s.threads_per_space[q][i]));
        }
        assert forall|x: Seq<char>| #[trigger] s2.threads.contains_key(x) implies {
            &&& s2.threads_per_space.contains_key(space_id_of(s2.threads[x].space_name))
            &&& s2.threads_per_space[space_id_of(s2.threads[x].space_name)].contains(x)
        } by {
            assert(s.threads.contains_key(x));
        }
    }
}

} // verus!
