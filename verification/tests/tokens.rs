use udpt_web::auth::{AccessTokenStore, authenticate};
use udpt_web::engine::TrackerEngine;
use udpt_web::router::UdptState;

#[test]
fn resolve_known_and_unknown_tokens() {
    let mut store = AccessTokenStore::new();
    store.insert("h311o".to_string(), "naim".to_string());
    assert_eq!(store.resolve(Some("h311o")), Some("naim".to_string()));
    assert_eq!(store.resolve(Some("other")), None);
    assert_eq!(store.resolve(None), None);
}

#[test]
fn insert_rebinds_an_existing_token() {
    let mut store = AccessTokenStore::new();
    store.insert("t".to_string(), "alice".to_string());
    store.insert("t".to_string(), "bob".to_string());
    assert_eq!(store.resolve(Some("t")), Some("bob".to_string()));
}

#[test]
fn authenticate_attaches_the_principal() {
    let mut store = AccessTokenStore::new();
    store.insert("k".to_string(), "operator".to_string());
    let ctx = authenticate(&store, Some("k"));
    assert_eq!(ctx.current_user, Some("operator".to_string()));
    let ctx = authenticate(&store, Some("nope"));
    assert_eq!(ctx.current_user, None);
    let ctx = authenticate(&store, None);
    assert_eq!(ctx.current_user, None);
}

#[test]
fn fresh_state_knows_the_configured_token() {
    let state = UdptState::new(TrackerEngine::new());
    assert_eq!(state.access_tokens.resolve(Some("h311o")), Some("naim".to_string()));
    assert_eq!(state.access_tokens.resolve(Some("h311o ")), None);
}
