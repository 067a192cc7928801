use thread_score::{
    LedgerError, SpaceFeatures, SpaceMetadata, ThreadFeatures, ThreadScoreContract, UserMetadata,
    UserRoles,
};

fn text(s: &str) -> String {
    s.to_string()
}

fn two_options() -> Vec<String> {
    vec![text("yes"), text("no")]
}

fn ledger() -> ThreadScoreContract {
    let mut c = ThreadScoreContract::new();
    assert!(c.register_user(text("alice.near"), UserRoles::Verified, 1000));
    assert!(c.register_user(text("bob.near"), UserRoles::Verified, 500));
    c
}

#[test]
fn new_ledger_is_empty() {
    let c = ThreadScoreContract::new();
    assert_eq!(c.get_all_spaces(None, None), vec![]);
    assert_eq!(c.get_user_metadata_by_user_id(text("alice.near")), None);
    assert_eq!(c.get_thread_metadata_by_thread_id(text("t")), None);
    assert_eq!(c.get_space_metadata_by_space_id(text("s")), None);
    assert_eq!(c.get_all_threads_of_space_by_space_id(text("s")), Vec::<String>::new());
}

#[test]
fn register_user_once() {
    let mut c = ThreadScoreContract::new();
    assert!(c.register_user(text("alice.near"), UserRoles::Verified, 1000));
    let expected = UserMetadata {
        user_id: text("alice.near"),
        role: UserRoles::Verified,
        total_point: 1000,
        threads_owned: 0,
        threads_list: vec![],
    };
    assert_eq!(c.get_user_metadata_by_user_id(text("alice.near")), Some(expected.clone()));
    assert!(!c.register_user(text("alice.near"), UserRoles::Unverified, 5));
    assert_eq!(c.get_user_metadata_by_user_id(text("alice.near")), Some(expected));
}

#[test]
fn debit_takes_exactly_the_amount() {
    let mut u = UserMetadata::new(text("alice.near"), UserRoles::Verified, 100);
    assert_eq!(u.debit(30), Ok(()));
    assert_eq!(u.total_point, 70);
    assert_eq!(u.debit(70), Err(LedgerError::InsufficientBalance));
    assert_eq!(u.debit(71), Err(LedgerError::InsufficientBalance));
    assert_eq!(u.total_point, 70);
    assert_eq!(u.debit(69), Ok(()));
    assert_eq!(u.total_point, 1);
    assert_eq!(u.debit(0), Ok(()));
    assert_eq!(u.total_point, 1);
    assert_eq!(u.debit(1), Err(LedgerError::InsufficientBalance));
    let mut empty = UserMetadata::new(text("bob.near"), UserRoles::Verified, 0);
    assert_eq!(empty.debit(0), Err(LedgerError::InsufficientBalance));
}

#[test]
fn create_space_returns_the_new_record() {
    let mut c = ledger();
    let sp = c.create_space(text("alice.near"), 77, text("Small Talk")).unwrap();
    let expected = SpaceMetadata {
        space_id: text("Small_Talk"),
        space_name: text("Small Talk"),
        creator_id: text("alice.near"),
        created_at: 77,
        followed_users: vec![],
        total_point: 0,
    };
    assert_eq!(sp, expected);
    assert_eq!(c.get_space_metadata_by_space_id(text("Small_Talk")), Some(expected));
    assert_eq!(c.get_space_metadata_by_space_id(text("Small Talk")), None);
}

#[test]
fn create_space_refuses_a_taken_identifier() {
    let mut c = ledger();
    let first = c.create_space(text("alice.near"), 77, text("Small Talk")).unwrap();
    assert_eq!(c.create_space(text("bob.near"), 78, text("Small Talk")), Err(LedgerError::AlreadyExists));
    assert_eq!(c.create_space(text("bob.near"), 78, text("Small_Talk")), Err(LedgerError::AlreadyExists));
    assert_eq!(c.get_all_spaces(None, None), vec![first]);
}

#[test]
fn two_threads_in_a_new_space_share_one_space() {
    let mut c = ledger();
    let a = c
        .create_thread(text("alice.near"), 50, text("one"), None, None, 10, text("New Space"), 100, 200, two_options())
        .unwrap();
    let b = c
        .create_thread(text("bob.near"), 60, text("two"), None, None, 10, text("New Space"), 100, 200, two_options())
        .unwrap();
    let spaces = c.get_all_spaces(None, None);
    assert_eq!(
        spaces,
        vec![SpaceMetadata {
            space_id: text("New_Space"),
            space_name: text("New Space"),
            creator_id: text("alice.near"),
            created_at: 50,
            followed_users: vec![],
            total_point: 0,
        }]
    );
    assert_eq!(c.get_all_threads_of_space_by_space_id(text("New_Space")), vec![a.thread_id, b.thread_id]);
}

#[test]
fn thread_in_an_existing_space_keeps_the_space() {
    let mut c = ledger();
    let sp = c.create_space(text("bob.near"), 10, text("Old Space")).unwrap();
    assert_eq!(c.get_all_threads_of_space_by_space_id(text("Old_Space")), Vec::<String>::new());
    let t = c
        .create_thread(text("alice.near"), 50, text("one"), None, None, 10, text("Old Space"), 100, 200, two_options())
        .unwrap();
    assert_eq!(c.get_space_metadata_by_space_id(text("Old_Space")), Some(sp));
    assert_eq!(c.get_all_threads_of_space_by_space_id(text("Old_Space")), vec![t.thread_id]);
    assert_eq!(c.get_all_spaces(None, None).len(), 1);
}

#[test]
fn spaces_are_paged_in_creation_order() {
    let mut c = ledger();
    let mut ids = Vec::new();
    for i in 0..7 {
        ids.push(c.create_space(text("alice.near"), i, format!("space {}", i)).unwrap().space_id);
    }
    let page = |c: &ThreadScoreContract, from: Option<u32>, limit: Option<u32>| -> Vec<String> {
        c.get_all_spaces(from, limit).into_iter().map(|s| s.space_id).collect()
    };
    assert_eq!(page(&c, None, None), ids[0..5].to_vec());
    assert_eq!(page(&c, Some(0), Some(5)), ids[0..5].to_vec());
    assert_eq!(page(&c, Some(5), Some(5)), ids[5..7].to_vec());
    assert_eq!(page(&c, Some(2), Some(3)), ids[2..5].to_vec());
    assert_eq!(page(&c, Some(6), None), ids[6..7].to_vec());
    assert_eq!(page(&c, Some(7), None), Vec::<String>::new());
    assert_eq!(page(&c, Some(u32::MAX), Some(u32::MAX)), Vec::<String>::new());
    assert_eq!(page(&c, None, Some(0)), Vec::<String>::new());
    assert_eq!(page(&c, None, Some(100)), ids);
}

#[test]
fn follow_space_lists_each_follower_once() {
    let mut c = ledger();
    c.create_space(text("alice.near"), 1, text("Small Talk")).unwrap();
    assert_eq!(c.follow_space(text("bob.near"), text("Small_Talk")), Some(text("OK")));
    assert_eq!(c.follow_space(text("alice.near"), text("Small_Talk")), Some(text("OK")));
    assert_eq!(c.follow_space(text("bob.near"), text("Small_Talk")), Some(text("OK")));
    assert_eq!(
        c.get_followed_user_of_space_by_space_id(text("Small_Talk")),
        vec![text("bob.near"), text("alice.near")]
    );
    let sp = c.get_space_metadata_by_space_id(text("Small_Talk")).unwrap();
    assert_eq!(sp.followed_users, vec![text("bob.near"), text("alice.near")]);
    assert_eq!(sp.creator_id, text("alice.near"));
}

#[test]
fn follow_space_needs_an_existing_space() {
    let mut c = ledger();
    assert_eq!(c.follow_space(text("bob.near"), text("nowhere")), None);
    assert_eq!(c.get_followed_user_of_space_by_space_id(text("nowhere")), Vec::<String>::new());
    assert_eq!(c.get_all_spaces(None, None), vec![]);
}

#[test]
fn follow_on_a_record() {
    let mut sp = SpaceMetadata::new(text("alice.near"), 5, text("a b c"));
    assert_eq!(sp.space_id, "a_b_c");
    sp.follow(text("x"));
    sp.follow(text("y"));
    sp.follow(text("x"));
    assert_eq!(sp.followed_users, vec![text("x"), text("y")]);
}
