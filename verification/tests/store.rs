use sharp::storage::error::StorageError;
use sharp::storage::memory::MemoryStorage;
use sharp::storage::session::{issue_session, MAX_AGE};
use sharp::storage::setup;
use sharp::storage::user::User;

#[test]
fn setup_twice_is_idempotent() {
    let mut store = MemoryStorage::new();
    assert!(setup(&mut store).is_ok());
    let id = store
        .create_user("a@example.com", None, "$argon2id$fake", 100)
        .unwrap();
    assert!(setup(&mut store).is_ok());
    let found = store.find_user_by_email("a@example.com").unwrap().unwrap();
    assert_eq!(found.id, id);
    // Exactly one row: removing it leaves nothing behind.
    store.remove_user("a@example.com").unwrap();
    assert!(store.find_user_by_email("a@example.com").unwrap().is_none());
}

#[test]
fn operations_before_setup_fail_with_backend() {
    let mut store = MemoryStorage::new();
    assert_eq!(
        store.create_user("a@example.com", None, "h", 1),
        Err(StorageError::Backend)
    );
    assert!(matches!(
        store.find_user_by_email("a@example.com"),
        Err(StorageError::Backend)
    ));
    assert_eq!(store.create_session(1, "tok", 1), Err(StorageError::Backend));
    assert!(matches!(
        store.find_session_by_token("tok", 1),
        Err(StorageError::Backend)
    ));
}

#[test]
fn duplicate_email_conflicts() {
    let mut store = MemoryStorage::new();
    setup(&mut store).unwrap();
    store.create_user("a@example.com", None, "h1", 1).unwrap();
    assert_eq!(
        store.create_user("A@Example.Com", None, "h2", 2),
        Err(StorageError::Conflict)
    );
}

#[test]
fn duplicate_token_conflicts() {
    let mut store = MemoryStorage::new();
    setup(&mut store).unwrap();
    store.create_session(1, "tok", 1).unwrap();
    assert_eq!(store.create_session(2, "tok", 2), Err(StorageError::Conflict));
}

#[test]
fn user_ids_are_assigned_in_order() {
    let mut store = MemoryStorage::new();
    setup(&mut store).unwrap();
    let a = store.create_user("a@example.com", None, "h", 1).unwrap();
    let b = store.create_user("b@example.com", None, "h", 1).unwrap();
    assert_eq!(b, a + 1);
}

#[test]
fn session_lookup_honors_max_age() {
    let mut store = MemoryStorage::new();
    setup(&mut store).unwrap();
    store.create_session(7, "tok", 1000).unwrap();
    // At exactly the maximum age the session is still honored.
    let s = store
        .find_session_by_token("tok", 1000 + MAX_AGE)
        .unwrap()
        .unwrap();
    assert_eq!(s.user_id, 7);
    assert_eq!(s.token, "tok");
    // One second older, it is treated as absent.
    assert!(store
        .find_session_by_token("tok", 1000 + MAX_AGE + 1)
        .unwrap()
        .is_none());
    // An unknown token is absent.
    assert!(store.find_session_by_token("other", 1001).unwrap().is_none());
}

#[test]
fn issuance_succeeds_on_a_healthy_store() {
    let mut store = MemoryStorage::new();
    setup(&mut store).unwrap();
    let session = issue_session(&mut store, 5, 100).unwrap();
    assert_eq!(session.user_id, 5);
    assert_eq!(session.created_at, 100);
    assert_eq!(session.token.len(), 24);
    // The issued session is honored right away.
    let found = store
        .find_session_by_token(&session.token, 100)
        .unwrap()
        .unwrap();
    assert_eq!(found.id, session.id);
}

#[test]
fn issuance_before_setup_is_a_backend_failure() {
    let mut store = MemoryStorage::new();
    assert_eq!(issue_session(&mut store, 5, 100).unwrap_err(), StorageError::Backend);
}

#[test]
fn add_user_replaces_by_email_and_remove_user_returns_it() {
    let mut store = MemoryStorage::new();
    let u1 = User {
        id: 1,
        email: "x@example.com".to_string(),
        username: None,
        password_hash: "h1".to_string(),
        created_at: 1,
    };
    let u2 = User {
        id: 2,
        email: "x@example.com".to_string(),
        username: Some("x".to_string()),
        password_hash: "h2".to_string(),
        created_at: 2,
    };
    store.add_user(u1).unwrap();
    store.add_user(u2).unwrap();
    let removed = store.remove_user("x@example.com").unwrap();
    assert_eq!(removed.id, 2);
    assert_eq!(removed.password_hash, "h2");
    assert!(store.remove_user("x@example.com").is_err());
}
