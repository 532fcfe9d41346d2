use std::collections::HashMap;

use twotter::models::{AccountPostData, NewAccount, TwootPostData};
use twotter::errors::TwotterError;
use twotter::store::{db_get_user_by_username, Store};

fn new_account(username: &str, first: &str, last: &str, email: &str, is_admin: bool) -> NewAccount {
    NewAccount {
        username: username.to_string(),
        first_name: first.to_string(),
        last_name: last.to_string(),
        email: email.to_string(),
        is_admin,
    }
}

fn store_with_alice() -> Store {
    let mut store = Store::new();
    store
        .create_account(new_account("alice", "Alice", "Ahlgren", "alice@example.com", false))
        .unwrap();
    store
}

#[test]
fn create_account_echoes_submitted_fields() {
    let mut store = Store::new();
    let echo = store
        .create_account(new_account("bob", "Bob", "Berg", "bob@example.com", true))
        .unwrap();
    assert_eq!(echo.username, "bob");
    assert_eq!(echo.email, "bob@example.com");
    assert_eq!(echo.first_name, "Bob");
    assert_eq!(echo.last_name, "Berg");
}

#[test]
fn get_account_by_username_zero_matches_is_record_not_found() {
    let store = Store::new();
    let r = store.get_account_by_username(&"ghost".to_string());
    match r {
        Err(TwotterError::RecordNotFound { table }) => assert_eq!(table, "user"),
        _ => panic!("expected RecordNotFound"),
    }
}

#[test]
fn get_account_by_username_one_match_returns_the_account() {
    let store = store_with_alice();
    let a = store.get_account_by_username(&"alice".to_string()).unwrap();
    assert_eq!(a.id, 1);
    assert_eq!(a.username, "alice");
    assert_eq!(a.first_name, "Alice");
    assert_eq!(a.last_name, "Ahlgren");
    assert_eq!(a.email, "alice@example.com");
    assert!(!a.is_admin);
}

#[test]
fn get_account_by_username_two_matches_is_multiple_results() {
    let mut store = store_with_alice();
    store
        .create_account(new_account("alice", "Alicia", "Andersson", "other@example.com", false))
        .unwrap();
    let r = store.get_account_by_username(&"alice".to_string());
    match r {
        Err(TwotterError::MultipleResults { table }) => assert_eq!(table, "user"),
        _ => panic!("expected MultipleResults"),
    }
}

#[test]
fn db_get_user_by_username_dispatches_on_row_count() {
    let store = store_with_alice();
    let alice = store.get_account_by_username(&"alice".to_string()).unwrap();

    assert!(matches!(
        db_get_user_by_username(Vec::new()),
        Err(TwotterError::RecordNotFound { .. })
    ));

    let one = db_get_user_by_username(vec![alice.duplicate()]).unwrap();
    assert_eq!(one.username, "alice");

    assert!(matches!(
        db_get_user_by_username(vec![alice.duplicate(), alice.duplicate()]),
        Err(TwotterError::MultipleResults { .. })
    ));
}

#[test]
fn list_accounts_never_returns_more_than_fifteen() {
    let mut store = Store::new();
    for i in 0..20 {
        let name = format!("user{}", i);
        store
            .create_account(new_account(&name, "First", "Last", "user@example.com", false))
            .unwrap();
    }
    let listed = store.list_accounts().unwrap();
    assert_eq!(listed.len(), 15);
    assert_eq!(listed[0].username, "user0");
    assert_eq!(listed[14].username, "user14");
}

#[test]
fn list_accounts_returns_all_when_few() {
    let store = store_with_alice();
    let listed = store.list_accounts().unwrap();
    assert_eq!(listed.len(), 1);
    assert_eq!(listed[0].username, "alice");
}

#[test]
fn update_account_changes_fields_and_lookup_reflects_them() {
    let mut store = store_with_alice();
    store
        .create_account(new_account("bob", "Bob", "Berg", "bob@example.com", false))
        .unwrap();
    let echo = store
        .update_account(AccountPostData {
            username: "alice".to_string(),
            email: "new@example.com".to_string(),
            first_name: "Alicia".to_string(),
            last_name: "Nyberg".to_string(),
        })
        .unwrap();
    assert_eq!(echo.username, "alice");
    assert_eq!(echo.email, "new@example.com");

    let a = store.get_account_by_username(&"alice".to_string()).unwrap();
    assert_eq!(a.username, "alice");
    assert_eq!(a.id, 1);
    assert_eq!(a.email, "new@example.com");
    assert_eq!(a.first_name, "Alicia");
    assert_eq!(a.last_name, "Nyberg");

    let b = store.get_account_by_username(&"bob".to_string()).unwrap();
    assert_eq!(b.email, "bob@example.com");
}

#[test]
fn adduser_then_get_user_returns_full_stored_record() {
    let mut store = Store::new();
    store
        .create_account(new_account("bob", "Bob", "Berg", "bob@example.com", true))
        .unwrap();
    let stored = store.get_account_by_username(&"bob".to_string()).unwrap();
    assert_eq!(stored.id, 1);
    assert_eq!(stored.username, "bob");
    assert_eq!(stored.first_name, "Bob");
    assert_eq!(stored.last_name, "Berg");
    assert_eq!(stored.email, "bob@example.com");
    assert!(stored.is_admin);
}

#[test]
fn create_twoot_over_144_chars_fails_with_submitted_length() {
    let mut store = store_with_alice();
    let long = "x".repeat(145);
    let r = store.create_twoot(TwootPostData { username: "alice".to_string(), content: long });
    match r {
        Err(TwotterError::TwootMaxCharExceeded { numchar }) => assert_eq!(numchar, 145),
        _ => panic!("expected TwootMaxCharExceeded"),
    }
}

#[test]
fn create_twoot_at_144_chars_succeeds() {
    let mut store = store_with_alice();
    let content = "y".repeat(144);
    let echo = store
        .create_twoot(TwootPostData { username: "alice".to_string(), content: content.clone() })
        .unwrap();
    assert_eq!(echo.username, "alice");
    assert_eq!(echo.content, content);
}

#[test]
fn create_twoot_for_unknown_username_is_record_not_found() {
    let mut store = store_with_alice();
    let r = store.create_twoot(TwootPostData {
        username: "ghost".to_string(),
        content: "hello".to_string(),
    });
    match r {
        Err(TwotterError::RecordNotFound { table }) => assert_eq!(table, "user"),
        _ => panic!("expected RecordNotFound"),
    }
}

#[test]
fn create_twoot_length_counts_characters_not_bytes() {
    let mut store = store_with_alice();
    let content = "å".repeat(144);
    assert!(content.len() > 144);
    let echo = store
        .create_twoot(TwootPostData { username: "alice".to_string(), content: content.clone() })
        .unwrap();
    assert_eq!(echo.content, content);

    let too_long = "å".repeat(145);
    let r = store.create_twoot(TwootPostData { username: "alice".to_string(), content: too_long });
    match r {
        Err(TwotterError::TwootMaxCharExceeded { numchar }) => assert_eq!(numchar, 145),
        _ => panic!("expected TwootMaxCharExceeded"),
    }
}

#[test]
fn assigned_uuids_follow_the_twoot_ids() {
    let mut store = store_with_alice();
    for content in ["one", "two"] {
        store
            .create_twoot(TwootPostData {
                username: "alice".to_string(),
                content: content.to_string(),
            })
            .unwrap();
    }
    let second = store.get_twoot_by_uuid("uuid-2".to_string()).unwrap();
    assert_eq!(second.len(), 1);
    assert_eq!(second[0].id, 2);
    assert_eq!(second[0].content, "two");
}

#[test]
fn get_twoot_by_uuid_zero_matches_is_empty_success() {
    let store = store_with_alice();
    let rows = store.get_twoot_by_uuid("no-such-uuid".to_string()).unwrap();
    assert!(rows.is_empty());
}

#[test]
fn get_twoot_by_uuid_finds_created_content() {
    let mut store = store_with_alice();
    store
        .create_twoot(TwootPostData { username: "alice".to_string(), content: "hi".to_string() })
        .unwrap();
    let rows = store.get_twoot_by_uuid("uuid-1".to_string()).unwrap();
    assert_eq!(rows.len(), 1);
    assert_eq!(rows[0].content, "hi");
    assert_eq!(rows[0].user_id, 1);
    assert_eq!(rows[0].id, 1);
}

#[test]
fn list_twoots_by_username_maps_ids_to_contents() {
    let mut store = store_with_alice();
    store
        .create_twoot(TwootPostData { username: "alice".to_string(), content: "a".to_string() })
        .unwrap();
    store
        .create_twoot(TwootPostData { username: "alice".to_string(), content: "b".to_string() })
        .unwrap();
    let (name, twoots) = store.list_twoots_by_username(&"alice".to_string()).unwrap();
    assert_eq!(name, "alice");
    let mut expected: HashMap<i32, String> = HashMap::new();
    expected.insert(1, "a".to_string());
    expected.insert(2, "b".to_string());
    assert_eq!(twoots, expected);
}

#[test]
fn list_twoots_by_username_skips_other_users() {
    let mut store = store_with_alice();
    store
        .create_account(new_account("bob", "Bob", "Berg", "bob@example.com", false))
        .unwrap();
    store
        .create_twoot(TwootPostData { username: "alice".to_string(), content: "a".to_string() })
        .unwrap();
    store
        .create_twoot(TwootPostData { username: "bob".to_string(), content: "b".to_string() })
        .unwrap();
    let (name, twoots) = store.list_twoots_by_username(&"bob".to_string()).unwrap();
    assert_eq!(name, "bob");
    assert_eq!(twoots.len(), 1);
    assert_eq!(twoots.get(&2), Some(&"b".to_string()));

    let (_, none) = store.list_twoots_by_username(&"ghost".to_string()).unwrap();
    assert!(none.is_empty());
}
