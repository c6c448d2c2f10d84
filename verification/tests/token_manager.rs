use pubsub_client::error::Error;
use pubsub_client::token::{bearer_header, TokenAction, TokenManager};

fn authenticated() -> TokenManager {
    TokenManager::new(
        "{\"type\":\"service_account\"}".to_string(),
        vec!["https://www.googleapis.com/auth/pubsub".to_string()],
    )
}

#[test]
fn bearer_header_uses_the_bearer_scheme() {
    assert_eq!(bearer_header("abc"), "Bearer abc");
}

#[test]
fn insecure_manager_never_produces_a_token() {
    let m = TokenManager::Insecure;
    assert!(matches!(m.decide(0), TokenAction::NoneNeeded));
    assert!(matches!(m.decide(12345), TokenAction::NoneNeeded));
}

#[test]
fn fresh_manager_requires_a_refresh() {
    let m = authenticated();
    assert!(matches!(m.decide(0), TokenAction::Refresh));
}

#[test]
fn one_refresh_serves_later_callers() {
    let mut m = authenticated();
    // First caller finds nothing cached and runs the one refresh.
    assert!(matches!(m.decide(10), TokenAction::Refresh));
    m.store("tok".to_string(), 100);
    // A caller that was waiting on the lock re-checks and reuses the stored
    // token instead of refreshing a second time.
    match m.decide(10) {
        TokenAction::Use(h) => assert_eq!(h, "Bearer tok"),
        _ => panic!("expected the cached token"),
    }
    // Every caller up to the expiry keeps reusing it.
    assert!(matches!(m.decide(99), TokenAction::Use(_)));
}

#[test]
fn expired_token_triggers_a_new_refresh() {
    let mut m = authenticated();
    m.store("tok".to_string(), 100);
    assert!(matches!(m.decide(99), TokenAction::Use(_)));
    // The instant the expiry is reached the cached token is stale.
    assert!(matches!(m.decide(100), TokenAction::Refresh));
    assert!(matches!(m.decide(500), TokenAction::Refresh));
}

#[test]
fn refresh_replaces_the_cached_token() {
    let mut m = authenticated();
    m.store("first".to_string(), 100);
    m.store("second".to_string(), 200);
    match m.decide(150) {
        TokenAction::Use(h) => assert_eq!(h, "Bearer second"),
        _ => panic!("expected the replacement token"),
    }
}

#[test]
fn completed_refresh_hands_back_the_stored_header() {
    let mut m = authenticated();
    let r = m.complete_refresh(Ok(("tok".to_string(), 100)));
    assert_eq!(r, Ok("Bearer tok".to_string()));
    assert!(matches!(m.decide(50), TokenAction::Use(_)));
}

#[test]
fn failed_refresh_propagates_unchanged_and_keeps_the_cache() {
    let mut m = authenticated();
    m.store("tok".to_string(), 100);
    let r = m.complete_refresh(Err(Error::Auth("credential source down".to_string())));
    assert_eq!(r, Err(Error::Auth("credential source down".to_string())));
    // The cache is untouched: the earlier token is still served.
    match m.decide(50) {
        TokenAction::Use(h) => assert_eq!(h, "Bearer tok"),
        _ => panic!("expected the cached token to survive the failure"),
    }
}

#[test]
fn scopes_are_kept_as_configured() {
    let m = authenticated();
    assert_eq!(
        m.scopes().expect("authenticated manager has scopes"),
        &vec!["https://www.googleapis.com/auth/pubsub".to_string()]
    );
    assert!(TokenManager::Insecure.scopes().is_none());
}
