use sharp::exceptions::is_exception;
use sharp::gateway::{gateway_decide, gateway_decide_request, GatewayDecision};
use sharp::headers::{build_auth_cookie, cookie_value};
use sharp::storage::memory::MemoryStorage;
use sharp::storage::session::MAX_AGE;
use sharp::storage::setup;

fn robots_only() -> Vec<String> {
    vec!["/robots.txt".to_string()]
}

#[test]
fn exempt_path_is_forwarded_without_cookie() {
    let mut store = MemoryStorage::new();
    setup(&mut store).unwrap();
    let d = gateway_decide(&store, "/robots.txt", None, &robots_only(), 100);
    assert_eq!(d, GatewayDecision::Forward);
}

#[test]
fn non_exempt_path_without_cookie_is_denied() {
    let mut store = MemoryStorage::new();
    setup(&mut store).unwrap();
    let d = gateway_decide(&store, "/dashboard", None, &robots_only(), 100);
    assert_eq!(d, GatewayDecision::Deny);
}

#[test]
fn live_session_cookie_is_forwarded() {
    let mut store = MemoryStorage::new();
    setup(&mut store).unwrap();
    store.create_session(3, "tok", 100).unwrap();
    let token = "tok".to_string();
    let d = gateway_decide(&store, "/dashboard", Some(&token), &robots_only(), 150);
    assert_eq!(d, GatewayDecision::Forward);
}

#[test]
fn expired_session_is_denied_like_a_missing_cookie() {
    let mut store = MemoryStorage::new();
    setup(&mut store).unwrap();
    store.create_session(3, "tok", 100).unwrap();
    let token = "tok".to_string();
    let with_expired = gateway_decide(
        &store,
        "/dashboard",
        Some(&token),
        &robots_only(),
        100 + MAX_AGE + 1,
    );
    let without_cookie =
        gateway_decide(&store, "/dashboard", None, &robots_only(), 100 + MAX_AGE + 1);
    assert_eq!(with_expired, GatewayDecision::Deny);
    assert_eq!(with_expired, without_cookie);
}

#[test]
fn store_failure_fails_closed() {
    // The schema was never set up: the lookup fails, and the request
    // is answered with an internal error, not forwarded.
    let store = MemoryStorage::new();
    let token = "tok".to_string();
    let d = gateway_decide(&store, "/dashboard", Some(&token), &robots_only(), 100);
    assert_eq!(d, GatewayDecision::InternalError);
}

#[test]
fn decision_from_raw_cookie_header() {
    let mut store = MemoryStorage::new();
    setup(&mut store).unwrap();
    store.create_session(3, "abc123", 100).unwrap();
    let header = "theme=dark; SHARP_token=abc123".to_string();
    let d = gateway_decide_request(&store, "/dashboard", Some(&header), &robots_only(), 150);
    assert_eq!(d, GatewayDecision::Forward);
    let wrong = "theme=dark; SHARP_token=zzz".to_string();
    let d2 = gateway_decide_request(&store, "/dashboard", Some(&wrong), &robots_only(), 150);
    assert_eq!(d2, GatewayDecision::Deny);
}

#[test]
fn exception_list_is_matched_exactly() {
    let ex = vec!["/favicon.ico".to_string(), "/robots.txt".to_string()];
    assert!(is_exception("/favicon.ico", &ex));
    assert!(is_exception("/robots.txt", &ex));
    assert!(!is_exception("/robots.txt/", &ex));
    assert!(!is_exception("/admin", &ex));
    assert!(!is_exception("/robots.txt", &Vec::new()));
}

#[test]
fn cookie_value_finds_the_named_pair() {
    assert_eq!(
        cookie_value("SHARP_token=abc", "SHARP_token"),
        Some("abc".to_string())
    );
    assert_eq!(
        cookie_value("a=b; SHARP_token=xyz; c=d", "SHARP_token"),
        Some("xyz".to_string())
    );
    assert_eq!(
        cookie_value("a=b;  SHARP_token=q", "SHARP_token"),
        Some("q".to_string())
    );
    assert_eq!(cookie_value("SHARP_token=", "SHARP_token"), Some(String::new()));
    assert_eq!(cookie_value("a=b; c=d", "SHARP_token"), None);
    // A longer name must not match, nor the name inside a value.
    assert_eq!(cookie_value("SHARP_token2=v", "SHARP_token"), None);
    assert_eq!(cookie_value("a=SHARP_token=v", "SHARP_token"), None);
    // The first matching pair decides.
    assert_eq!(
        cookie_value("SHARP_token=first; SHARP_token=second", "SHARP_token"),
        Some("first".to_string())
    );
}

#[test]
fn auth_cookie_carries_token_and_attributes() {
    let c = build_auth_cookie("abc123");
    assert_eq!(
        c,
        "SHARP_token=abc123; HttpOnly; Secure; SameSite=Strict; Path=/; Max-Age=86400"
    );
}
