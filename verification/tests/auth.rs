use sharp::login::{verify_login, LoginError};
use sharp::register::{register, register_hashed, RegisterData, RegisterError};
use sharp::storage::error::StorageError;
use sharp::storage::memory::MemoryStorage;
use sharp::storage::setup;
use sharp::storage::user::User;
use std::time::Instant;

fn data(email: &str, password: &str, repeat: &str) -> RegisterData {
    RegisterData {
        email: email.to_string(),
        username: None,
        password: password.to_string(),
        repeat_password: repeat.to_string(),
    }
}

#[test]
fn registered_pair_logs_in() {
    let mut store = MemoryStorage::new();
    setup(&mut store).unwrap();
    let session = register(&mut store, data("User@Example.com", "password123", "password123"), 50)
        .unwrap();
    let user = verify_login(&store, "user@example.com", "password123").unwrap();
    assert_eq!(user.id, session.user_id);
    assert_eq!(user.email, "user@example.com");
}

#[test]
fn wrong_password_and_unknown_email_fail_alike() {
    let mut store = MemoryStorage::new();
    setup(&mut store).unwrap();
    register(&mut store, data("a@example.com", "password123", "password123"), 50).unwrap();
    let wrong_password = verify_login(&store, "a@example.com", "password124").unwrap_err();
    let unknown_email = verify_login(&store, "b@example.com", "password123").unwrap_err();
    assert_eq!(wrong_password, LoginError::InvalidCredentials);
    assert_eq!(unknown_email, LoginError::InvalidCredentials);
    assert_eq!(wrong_password, unknown_email);
}

#[test]
fn seven_character_password_is_too_short() {
    let mut store = MemoryStorage::new();
    setup(&mut store).unwrap();
    let r = register(&mut store, data("a@example.com", "1234567", "1234567"), 1);
    assert!(matches!(r, Err(RegisterError::PasswordTooShort)));
    // Nothing was stored.
    assert!(store.find_user_by_email("a@example.com").unwrap().is_none());
}

#[test]
fn eight_character_password_passes_the_length_check() {
    let mut store = MemoryStorage::new();
    setup(&mut store).unwrap();
    let r = register(&mut store, data("a@example.com", "12345678", "12345678"), 1);
    assert!(r.is_ok());
}

#[test]
fn mismatched_passwords_are_rejected() {
    let mut store = MemoryStorage::new();
    setup(&mut store).unwrap();
    let r = register(&mut store, data("a@example.com", "password123", "password124"), 1);
    assert!(matches!(r, Err(RegisterError::PasswordMismatch)));
    assert!(store.find_user_by_email("a@example.com").unwrap().is_none());
}

#[test]
fn registering_a_taken_email_conflicts_and_leaves_one_row() {
    let mut store = MemoryStorage::new();
    setup(&mut store).unwrap();
    register(&mut store, data("a@example.com", "password123", "password123"), 1).unwrap();
    let r = register(&mut store, data("A@EXAMPLE.COM", "password456", "password456"), 2);
    assert!(matches!(
        r,
        Err(RegisterError::StoreFailure(StorageError::Conflict))
    ));
    // The original account still logs in.
    assert!(verify_login(&store, "a@example.com", "password123").is_ok());
}

#[test]
fn failed_session_issuance_rolls_the_user_back() {
    let mut store = MemoryStorage::new();
    setup(&mut store).unwrap();
    // Occupy both candidate tokens, forcing session issuance to fail
    // after the user row was created inside the transaction.
    store.create_session(1, "t1", 10).unwrap();
    store.create_session(1, "t2", 10).unwrap();
    let r = register_hashed(
        &mut store,
        "victim@example.com",
        None,
        "$argon2id$irrelevant",
        "t1",
        "t2",
        20,
    );
    assert_eq!(r.unwrap_err(), StorageError::Conflict);
    // No user row with that email exists afterward.
    assert!(store
        .find_user_by_email("victim@example.com")
        .unwrap()
        .is_none());
}

#[test]
fn session_issuance_retries_one_collision() {
    let mut store = MemoryStorage::new();
    setup(&mut store).unwrap();
    store.create_session(1, "t1", 10).unwrap();
    let session = register_hashed(
        &mut store,
        "ok@example.com",
        None,
        "$argon2id$irrelevant",
        "t1",
        "t2",
        20,
    )
    .unwrap();
    assert_eq!(session.token, "t2");
    assert!(store
        .find_user_by_email("ok@example.com")
        .unwrap()
        .is_some());
}

#[test]
fn session_tokens_are_base64_of_sixteen_bytes() {
    let mut store = MemoryStorage::new();
    setup(&mut store).unwrap();
    let session = register(&mut store, data("a@example.com", "password123", "password123"), 1)
        .unwrap();
    // 16 random bytes encode to exactly 24 base64 characters.
    assert_eq!(session.token.len(), 24);
    let generated = sharp::storage::session::NewSession::generate(9);
    assert_eq!(generated.user_id, 9);
    assert_eq!(generated.token.len(), 24);
}

#[test]
fn hash_password_produces_a_phc_string() {
    let hash = sharp::hashing::hash_password("password123").unwrap();
    assert!(hash.starts_with("$argon2"));
}

#[test]
fn username_is_stored_with_the_account() {
    let mut store = MemoryStorage::new();
    setup(&mut store).unwrap();
    let d = RegisterData {
        email: "named@example.com".to_string(),
        username: Some("display name".to_string()),
        password: "password123".to_string(),
        repeat_password: "password123".to_string(),
    };
    register(&mut store, d, 1).unwrap();
    let u = store.find_user_by_email("named@example.com").unwrap().unwrap();
    assert_eq!(u.username, Some("display name".to_string()));
}

#[test]
fn unknown_email_and_wrong_password_cost_alike() {
    let mut store = MemoryStorage::new();
    setup(&mut store).unwrap();
    register(&mut store, data("a@example.com", "password123", "password123"), 1).unwrap();
    // Warm both paths once, then compare their costs; the margin is
    // generous because this is statistical, not exact.
    let _ = verify_login(&store, "a@example.com", "password124");
    let _ = verify_login(&store, "b@example.com", "password124");
    let started = Instant::now();
    let _ = verify_login(&store, "a@example.com", "password124");
    let wrong_password = started.elapsed();
    let started = Instant::now();
    let _ = verify_login(&store, "b@example.com", "password124");
    let unknown_email = started.elapsed();
    let slower = wrong_password.max(unknown_email).as_secs_f64();
    let faster = wrong_password.min(unknown_email).as_secs_f64().max(1e-9);
    assert!(
        slower / faster < 5.0,
        "wrong password took {wrong_password:?}, unknown email took {unknown_email:?}"
    );
}

#[test]
fn email_lookup_is_case_insensitive() {
    let mut store = MemoryStorage::new();
    setup(&mut store).unwrap();
    let session = register(&mut store, data("USER@Example.com", "password123", "password123"), 1)
        .unwrap();
    let found = store.find_user_by_email("user@example.com").unwrap().unwrap();
    assert_eq!(found.id, session.user_id);
    assert_eq!(found.email, "user@example.com");
    let found_upper = store.find_user_by_email("USER@EXAMPLE.COM").unwrap().unwrap();
    assert_eq!(found_upper.id, found.id);
}

#[test]
fn malformed_stored_hash_is_a_hashing_failure_not_a_wrong_password() {
    let mut store = MemoryStorage::new();
    setup(&mut store).unwrap();
    store
        .add_user(User {
            id: 1,
            email: "broken@example.com".to_string(),
            username: None,
            password_hash: "not a phc string".to_string(),
            created_at: 1,
        })
        .unwrap();
    let e = verify_login(&store, "broken@example.com", "password123").unwrap_err();
    assert_eq!(e, LoginError::HashingFailure);
}

#[test]
fn login_before_setup_is_a_store_failure() {
    let store = MemoryStorage::new();
    let e = verify_login(&store, "a@example.com", "password123").unwrap_err();
    assert_eq!(e, LoginError::StoreFailure(StorageError::Backend));
}
