use udpt_web::auth::RequestContext;
use udpt_web::engine::TrackerEngine;
use udpt_web::handlers::{torrent_action, view_torrent_list, view_torrent_stats};
use udpt_web::responses::{BodyKind, server_header};
use udpt_web::router::{ApiQuery, HttpMethod, UdptState, handle_request};

fn id(b: u8) -> [u8; 20] {
    [b; 20]
}

fn hex_id(b: u8) -> String {
    let mut s = String::new();
    for _ in 0..20 {
        s.push_str(&format!("{:02x}", b));
    }
    s
}

fn state_with(n: u8) -> UdptState {
    let mut engine = TrackerEngine::new();
    for b in 1..=n {
        assert!(engine.add(&id(b)));
    }
    UdptState::new(engine)
}

fn query(token: Option<&str>, offset: Option<&str>, limit: Option<&str>, action: Option<&str>) -> ApiQuery {
    ApiQuery {
        token: token.map(str::to_string),
        offset: offset.map(str::to_string),
        limit: limit.map(str::to_string),
        action: action.map(str::to_string),
    }
}

fn authed() -> RequestContext {
    RequestContext { current_user: Some("naim".to_string()) }
}

fn anonymous() -> RequestContext {
    RequestContext { current_user: None }
}

#[test]
fn root_page_is_unauthenticated_html() {
    let mut state = state_with(0);
    let r = handle_request(&mut state, HttpMethod::Get, "/", &query(None, None, None, None));
    assert_eq!(r.status, 200);
    assert_eq!(r.kind, BodyKind::Html);
    assert!(r.body.contains("Powered by"));
    assert_eq!(r.server, server_header());
}

#[test]
fn list_with_known_token_pages_in_stored_order() {
    let mut state = state_with(5);
    let q = query(Some("h311o"), None, Some("2"), None);
    let r = handle_request(&mut state, HttpMethod::Get, "/t", &q);
    assert_eq!(r.status, 200);
    assert_eq!(r.kind, BodyKind::Json);
    let expected = format!(
        "{{\"type\":\"torrent_list\",\"offset\":0,\"length\":2,\"total\":5,\"torrents\":[\"{}\",\"{}\"]}}",
        hex_id(1),
        hex_id(2)
    );
    assert_eq!(r.body, expected);
}

#[test]
fn list_offset_skips_entities() {
    let mut state = state_with(5);
    let q = query(Some("h311o"), Some("3"), Some("10"), None);
    let r = handle_request(&mut state, HttpMethod::Get, "/t", &q);
    let expected = format!(
        "{{\"type\":\"torrent_list\",\"offset\":3,\"length\":2,\"total\":5,\"torrents\":[\"{}\",\"{}\"]}}",
        hex_id(4),
        hex_id(5)
    );
    assert_eq!(r.body, expected);
}

#[test]
fn list_offset_beyond_count_is_empty_page() {
    let mut state = state_with(3);
    let q = query(Some("h311o"), Some("3"), None, None);
    let r = handle_request(&mut state, HttpMethod::Get, "/t", &q);
    assert_eq!(r.status, 200);
    assert_eq!(
        r.body,
        "{\"type\":\"torrent_list\",\"offset\":3,\"length\":0,\"total\":3,\"torrents\":[]}"
    );
}

#[test]
fn list_unparsable_parameters_fall_back_to_defaults() {
    let mut state = state_with(2);
    let q = query(Some("h311o"), Some("oops"), Some("oops"), None);
    let r = handle_request(&mut state, HttpMethod::Get, "/t", &q);
    let expected = format!(
        "{{\"type\":\"torrent_list\",\"offset\":0,\"length\":2,\"total\":2,\"torrents\":[\"{}\",\"{}\"]}}",
        hex_id(1),
        hex_id(2)
    );
    assert_eq!(r.body, expected);
}

#[test]
fn list_without_token_is_denied_with_ok_status() {
    let mut state = state_with(2);
    let r = handle_request(&mut state, HttpMethod::Get, "/t", &query(None, None, None, None));
    assert_eq!(r.status, 200);
    assert_eq!(r.body, "{\"type\":\"error\",\"message\":\"access_denied\"}");
}

#[test]
fn list_with_unknown_token_is_denied() {
    let mut state = state_with(2);
    let q = query(Some("wrong"), None, None, None);
    let r = handle_request(&mut state, HttpMethod::Get, "/t", &q);
    assert_eq!(r.status, 200);
    assert_eq!(r.body, "{\"type\":\"error\",\"message\":\"access_denied\"}");
}

#[test]
fn stats_without_token_is_unauthorized() {
    let mut state = state_with(1);
    let path = format!("/t/{}", hex_id(1));
    let r = handle_request(&mut state, HttpMethod::Get, path.as_str(), &query(None, None, None, None));
    assert_eq!(r.status, 401);
    assert_eq!(r.body, "{\"type\":\"error\",\"message\":\"access_denied\"}");
    assert_eq!(r.server, "udpt/0.1.0");
}

#[test]
fn stats_reports_flag_and_counts() {
    let mut engine = TrackerEngine::new();
    assert!(engine.add(&id(1)));
    assert!(engine.set_stats(&id(1), 5, 2, 9));
    assert!(engine.set_flag(&id(1), true));
    let mut state = UdptState::new(engine);
    let path = format!("/t/{}", hex_id(1));
    let q = query(Some("h311o"), None, None, None);
    let r = handle_request(&mut state, HttpMethod::Get, path.as_str(), &q);
    assert_eq!(r.status, 200);
    assert_eq!(
        r.body,
        "{\"type\":\"torrent_info\",\"is_flagged\":true,\"leecher_count\":9,\"seeder_count\":5,\"completed\":2}"
    );
}

#[test]
fn stats_for_unknown_identifier_is_not_found() {
    let mut state = state_with(1);
    let path = format!("/t/{}", hex_id(9));
    let q = query(Some("h311o"), None, None, None);
    let r = handle_request(&mut state, HttpMethod::Get, path.as_str(), &q);
    assert_eq!(r.status, 404);
    assert_eq!(r.body, "{\"type\":\"error\",\"message\":\"not_found\"}");
}

#[test]
fn malformed_identifier_reaches_no_route() {
    let mut state = state_with(1);
    let q = query(Some("h311o"), None, None, None);
    let r = handle_request(&mut state, HttpMethod::Get, "/t/0123", &q);
    assert_eq!(r.status, 404);
    assert_eq!(r.kind, BodyKind::NoBody);
    let r = handle_request(
        &mut state,
        HttpMethod::Get,
        "/t/00000000000000000000000000000000000000zz",
        &q,
    );
    assert_eq!(r.status, 404);
}

#[test]
fn malformed_identifier_in_handler_is_bad_request() {
    let engine = TrackerEngine::new();
    let r = view_torrent_stats(&engine, &authed(), "not-a-hash");
    assert_eq!(r.status, 400);
    let mut engine = TrackerEngine::new();
    let r = torrent_action(&mut engine, &authed(), "deadbeef", Some("flag"));
    assert_eq!(r.status, 400);
}

#[test]
fn flag_action_is_existence_independent() {
    let mut state = state_with(0);
    let path = format!("/t/{}", "0".repeat(40));
    let q = query(Some("h311o"), None, None, Some("flag"));
    let r = handle_request(&mut state, HttpMethod::Post, path.as_str(), &q);
    assert_eq!(r.status, 200);
    assert_eq!(r.kind, BodyKind::NoBody);
    assert_eq!(r.body, "");
}

#[test]
fn flag_then_unflag_round_trip() {
    let mut state = state_with(1);
    let path = format!("/t/{}", hex_id(1));
    let q = query(Some("h311o"), None, None, Some("flag"));
    let r = handle_request(&mut state, HttpMethod::Post, path.as_str(), &q);
    assert_eq!(r.status, 200);
    assert!(state.tracker.lookup(&id(1)).unwrap().is_flagged());
    let q = query(Some("h311o"), None, None, Some("unflag"));
    let r = handle_request(&mut state, HttpMethod::Post, path.as_str(), &q);
    assert_eq!(r.status, 200);
    assert!(!state.tracker.lookup(&id(1)).unwrap().is_flagged());
}

#[test]
fn missing_action_is_bad_request() {
    let mut state = state_with(1);
    let path = format!("/t/{}", hex_id(1));
    let q = query(Some("h311o"), None, None, None);
    let r = handle_request(&mut state, HttpMethod::Post, path.as_str(), &q);
    assert_eq!(r.status, 400);
    assert_eq!(r.body, "{\"type\":\"error\",\"message\":\"action_required\"}");
}

#[test]
fn unknown_action_is_bad_request() {
    let mut state = state_with(1);
    let path = format!("/t/{}", hex_id(1));
    let q = query(Some("h311o"), None, None, Some("explode"));
    let r = handle_request(&mut state, HttpMethod::Post, path.as_str(), &q);
    assert_eq!(r.status, 400);
    assert_eq!(r.body, "{\"type\":\"error\",\"message\":\"invalid_action\"}");
}

#[test]
fn add_action_registers_and_rejects_duplicates() {
    let mut state = state_with(0);
    let path = format!("/t/{}", hex_id(4));
    let q = query(Some("h311o"), None, None, Some("add"));
    let r = handle_request(&mut state, HttpMethod::Post, path.as_str(), &q);
    assert_eq!(r.status, 200);
    assert_eq!(state.tracker.count(), 1);
    let r = handle_request(&mut state, HttpMethod::Post, path.as_str(), &q);
    assert_eq!(r.status, 500);
    assert_eq!(r.body, "");
    assert_eq!(state.tracker.count(), 1);
}

#[test]
fn remove_action_deletes_or_fails_opaquely() {
    let mut state = state_with(2);
    let path = format!("/t/{}", hex_id(1));
    let q = query(Some("h311o"), None, None, Some("remove"));
    let r = handle_request(&mut state, HttpMethod::Post, path.as_str(), &q);
    assert_eq!(r.status, 200);
    assert_eq!(state.tracker.count(), 1);
    let r = handle_request(&mut state, HttpMethod::Post, path.as_str(), &q);
    assert_eq!(r.status, 500);
    assert_eq!(r.body, "");
}

#[test]
fn action_without_token_is_unauthorized_and_mutates_nothing() {
    let mut state = state_with(1);
    let path = format!("/t/{}", hex_id(2));
    let q = query(None, None, None, Some("add"));
    let r = handle_request(&mut state, HttpMethod::Post, path.as_str(), &q);
    assert_eq!(r.status, 401);
    assert_eq!(r.body, "{\"type\":\"error\",\"message\":\"access_denied\"}");
    assert_eq!(state.tracker.count(), 1);
}

#[test]
fn unrouted_paths_are_not_found() {
    let mut state = state_with(1);
    let q = query(Some("h311o"), None, None, None);
    assert_eq!(handle_request(&mut state, HttpMethod::Get, "/x", &q).status, 404);
    assert_eq!(handle_request(&mut state, HttpMethod::Post, "/t", &q).status, 404);
    assert_eq!(handle_request(&mut state, HttpMethod::Post, "/", &q).status, 404);
    assert_eq!(handle_request(&mut state, HttpMethod::Get, "", &q).status, 404);
}

#[test]
fn every_reply_carries_the_server_header() {
    let mut state = state_with(1);
    let replies = vec![
        handle_request(&mut state, HttpMethod::Get, "/", &query(None, None, None, None)),
        handle_request(&mut state, HttpMethod::Get, "/t", &query(None, None, None, None)),
        handle_request(&mut state, HttpMethod::Get, "/nowhere", &query(None, None, None, None)),
        handle_request(
            &mut state,
            HttpMethod::Post,
            format!("/t/{}", hex_id(1)).as_str(),
            &query(Some("h311o"), None, None, Some("flag")),
        ),
    ];
    for r in replies {
        assert_eq!(r.server, server_header());
    }
}

#[test]
fn list_limit_values_are_normalised() {
    let mut state = state_with(2);
    // a limit above the cap is clamped, which still covers both entities
    let r = handle_request(
        &mut state,
        HttpMethod::Get,
        "/t",
        &query(Some("h311o"), None, Some("4097"), None),
    );
    assert!(r.body.contains("\"length\":2"));
    // a zero limit falls back to the default page size
    let r = handle_request(
        &mut state,
        HttpMethod::Get,
        "/t",
        &query(Some("h311o"), None, Some("0"), None),
    );
    assert!(r.body.contains("\"length\":2"));
    // an explicit limit inside the range is applied as given
    let r = handle_request(
        &mut state,
        HttpMethod::Get,
        "/t",
        &query(Some("h311o"), None, Some("1"), None),
    );
    let expected = format!(
        "{{\"type\":\"torrent_list\",\"offset\":0,\"length\":1,\"total\":2,\"torrents\":[\"{}\"]}}",
        hex_id(1)
    );
    assert_eq!(r.body, expected);
}

#[test]
fn list_handler_direct_call_matches_pipeline() {
    let mut engine = TrackerEngine::new();
    for b in 1..=5u8 {
        assert!(engine.add(&id(b)));
    }
    let r = view_torrent_list(&engine, &authed(), None, Some("2"));
    assert_eq!(r.status, 200);
    let r = view_torrent_list(&engine, &anonymous(), None, None);
    assert_eq!(r.status, 200);
}
