use thread_score::table::Table;
use thread_score::{page_bounds, UserMetadata, UserRoles};

fn user(id: &str, balance: u32) -> UserMetadata {
    UserMetadata::new(id.to_string(), UserRoles::Verified, balance)
}

#[test]
fn empty_table_holds_nothing() {
    let t: Table<UserMetadata> = Table::new();
    assert_eq!(t.len(), 0);
    assert_eq!(t.position(&"a".to_string()), None);
    assert!(!t.contains(&"a".to_string()));
    assert_eq!(t.get(&"a".to_string()), None);
}

#[test]
fn insert_appends_new_keys_in_order() {
    let mut t: Table<UserMetadata> = Table::new();
    t.insert("b".to_string(), user("b", 2));
    t.insert("a".to_string(), user("a", 1));
    t.insert("c".to_string(), user("c", 3));
    assert_eq!(t.len(), 3);
    assert_eq!(t.position(&"b".to_string()), Some(0));
    assert_eq!(t.position(&"a".to_string()), Some(1));
    assert_eq!(t.position(&"c".to_string()), Some(2));
    assert_eq!(t.position(&"d".to_string()), None);
    assert_eq!(t.value_at(1), &user("a", 1));
    assert_eq!(t.get(&"c".to_string()), Some(&user("c", 3)));
    assert!(t.contains(&"a".to_string()));
    assert!(!t.contains(&"A".to_string()));
}

#[test]
fn insert_replaces_in_place() {
    let mut t: Table<UserMetadata> = Table::new();
    t.insert("b".to_string(), user("b", 2));
    t.insert("a".to_string(), user("a", 1));
    t.insert("b".to_string(), user("b", 20));
    assert_eq!(t.len(), 2);
    assert_eq!(t.position(&"b".to_string()), Some(0));
    assert_eq!(t.get(&"b".to_string()), Some(&user("b", 20)));
    assert_eq!(t.get(&"a".to_string()), Some(&user("a", 1)));
    assert_eq!(t.value_at(0).total_point, 20);
}

#[test]
fn page_bounds_clip_to_the_list() {
    assert_eq!(page_bounds(7, None, None), (0, 5));
    assert_eq!(page_bounds(3, None, None), (0, 3));
    assert_eq!(page_bounds(7, Some(5), Some(5)), (5, 7));
    assert_eq!(page_bounds(7, Some(7), Some(5)), (7, 7));
    assert_eq!(page_bounds(7, Some(9), Some(5)), (7, 7));
    assert_eq!(page_bounds(7, Some(2), Some(0)), (2, 2));
    assert_eq!(page_bounds(0, Some(0), Some(5)), (0, 0));
    assert_eq!(page_bounds(7, Some(u32::MAX), Some(u32::MAX)), (7, 7));
    assert_eq!(page_bounds(10, Some(0), Some(u32::MAX)), (0, 10));
    assert_eq!(page_bounds(10, Some(3), None), (3, 8));
}
