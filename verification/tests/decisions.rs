use thread_score::{
    cast_vote, open_thread, LedgerError, SpaceMetadata, ThreadMetadata, UserMetadata, UserRoles,
    Vote,
};

fn text(s: &str) -> String {
    s.to_string()
}

fn user(balance: u32) -> UserMetadata {
    UserMetadata::new(text("alice.near"), UserRoles::Verified, balance)
}

fn thread() -> ThreadMetadata {
    ThreadMetadata {
        thread_id: text("t_bob.near"),
        title: text("t"),
        media_link: None,
        creator_id: text("bob.near"),
        content: None,
        init_point: 10,
        space_name: text("s"),
        start_time: 100,
        end_time: 200,
        created_at: 50,
        choices_count: 2,
        choices_map: vec![text("yes"), text("no")],
        user_votes_map: vec![Vote { voter: text("carol.near"), choice: 1, point: 20 }],
        choices_rating: vec![0, 20],
        last_id: 0,
    }
}

#[test]
fn open_thread_builds_all_that_is_written() {
    let opened = open_thread(
        text("alice.near"),
        50,
        text("a poll"),
        None,
        Some(text("link")),
        100,
        text("Small Talk"),
        100,
        200,
        vec![text("yes"), text("no")],
        Some(user(1000)),
        false,
        false,
    )
    .ok()
    .unwrap();
    assert_eq!(opened.thread.thread_id, "a_poll_alice.near");
    assert_eq!(opened.thread.choices_rating, vec![0, 0]);
    assert_eq!(opened.thread.media_link, Some(text("link")));
    assert_eq!(opened.thread.content, None);
    assert_eq!(
        opened.creator,
        UserMetadata {
            user_id: text("alice.near"),
            role: UserRoles::Verified,
            total_point: 900,
            threads_owned: 1,
            threads_list: vec![text("a_poll_alice.near")],
        }
    );
    assert_eq!(opened.space, Some(SpaceMetadata::new(text("alice.near"), 50, text("Small Talk"))));
}

#[test]
fn open_thread_builds_no_space_where_one_is_known() {
    let opened = open_thread(
        text("alice.near"), 50, text("a poll"), None, None, 0, text("Small Talk"), 100, 200,
        vec![text("a"), text("b"), text("c")], Some(user(1)), false, true,
    )
    .ok()
    .unwrap();
    assert_eq!(opened.space, None);
    assert_eq!(opened.creator.total_point, 1);
    assert_eq!(opened.thread.choices_count, 3);
}

#[test]
fn open_thread_refuses_in_order() {
    let refusal = |n: usize, creator: Option<UserMetadata>, stake: u32, taken: bool| {
        open_thread(
            text("alice.near"), 50, text("a poll"), None, None, stake, text("s"), 100, 200,
            vec![text("x"); n], creator, taken, false,
        )
        .err()
    };
    let unverified = UserMetadata::new(text("alice.near"), UserRoles::Unverified, 5);
    assert_eq!(refusal(1, None, 10, true), Some(LedgerError::InvalidChoiceCount));
    assert_eq!(refusal(4, None, 10, true), Some(LedgerError::InvalidChoiceCount));
    assert_eq!(refusal(2, None, 10, true), Some(LedgerError::UserNotRegistered));
    assert_eq!(refusal(2, Some(unverified), 10, true), Some(LedgerError::NotVerified));
    assert_eq!(refusal(2, Some(user(10)), 10, true), Some(LedgerError::InsufficientStake));
    assert_eq!(refusal(2, Some(user(0)), 0, true), Some(LedgerError::InsufficientStake));
    assert_eq!(refusal(2, Some(user(11)), 10, true), Some(LedgerError::ThreadAlreadyExists));
    assert_eq!(refusal(2, Some(user(11)), 10, false), None);
}

#[test]
fn cast_vote_builds_all_that_is_written() {
    let t = thread();
    assert!(t.has_room(0, 30));
    let cast = cast_vote(text("alice.near"), 150, 0, 30, Some(user(100)), Some(t)).ok().unwrap();
    assert_eq!(cast.voter.total_point, 70);
    assert_eq!(cast.thread.choices_rating, vec![30, 20]);
    assert_eq!(
        cast.thread.user_votes_map,
        vec![
            Vote { voter: text("carol.near"), choice: 1, point: 20 },
            Vote { voter: text("alice.near"), choice: 0, point: 30 },
        ]
    );
    assert_eq!(cast.thread.thread_id, "t_bob.near");
}

#[test]
fn cast_vote_adds_to_the_total_of_the_choice() {
    let cast = cast_vote(text("alice.near"), 150, 1, 30, Some(user(100)), Some(thread())).ok().unwrap();
    assert_eq!(cast.thread.choices_rating, vec![0, 50]);
}

#[test]
fn cast_vote_refuses_in_order() {
    let refusal = |voter: &str, now: u64, choice: u8, point: u32, record: Option<UserMetadata>, t: Option<ThreadMetadata>| {
        cast_vote(text(voter), now, choice, point, record, t).err()
    };
    assert_eq!(refusal("alice.near", 150, 0, 10, None, None), Some(LedgerError::PointTooLow));
    assert_eq!(refusal("alice.near", 150, 0, 11, None, None), Some(LedgerError::UserNotRegistered));
    assert_eq!(refusal("alice.near", 150, 0, 11, Some(user(11)), None), Some(LedgerError::InsufficientBalance));
    assert_eq!(refusal("alice.near", 150, 0, 11, Some(user(12)), None), Some(LedgerError::ThreadNotFound));
    assert_eq!(refusal("carol.near", 100, 9, 11, Some(user(12)), Some(thread())), Some(LedgerError::ThreadNotOpen));
    assert_eq!(refusal("carol.near", 200, 9, 11, Some(user(12)), Some(thread())), Some(LedgerError::ThreadClosed));
    assert_eq!(refusal("carol.near", 150, 2, 11, Some(user(12)), Some(thread())), Some(LedgerError::InvalidChoice));
    assert_eq!(refusal("carol.near", 150, 1, 11, Some(user(12)), Some(thread())), Some(LedgerError::AlreadyVoted));
    assert_eq!(refusal("alice.near", 150, 1, 11, Some(user(12)), Some(thread())), None);
}

#[test]
fn totals_have_room_below_the_maximum() {
    let mut t = thread();
    t.choices_rating = vec![u128::MAX - 5, 0];
    assert!(t.has_room(0, 5));
    assert!(!t.has_room(0, 6));
    assert!(t.has_room(1, u32::MAX));
    assert!(t.has_room(2, u32::MAX));
}
