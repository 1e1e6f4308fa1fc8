//! The fixed route table and the request pipeline: authentication, route
//! matching, handler dispatch and rendering, composed in one pass.

use vstd::prelude::*;
use vstd::string::{StrSliceExecFns, StringExecFns};
use crate::auth::{
    AccessTokenStore, TokenModel, authenticate, opt_string_view, spec_resolve,
};
use crate::engine::{EngineModel, TrackerEngine};
use crate::handlers::{
    spec_torrent_action, spec_torrent_list, spec_torrent_stats, spec_view_root, torrent_action,
    view_root, view_torrent_list, view_torrent_stats,
};
use crate::hex::{is_hex_digit, is_hex_digit_char, valid_info_hash};
use crate::responses::{
    HttpReply, RenderedReply, ResponseBody, SpecApiResponse, SpecHttpReply, SpecRenderedReply,
    SpecResponseBody, STATUS_NOT_FOUND, render, spec_render, spec_server_header,
};
use crate::text::str_eq;
use crate::validate::view_opt;

verus! {

/// The request methods the route table knows.
#[derive(Clone, Copy, PartialEq, Eq, Structural, Debug)]
pub enum HttpMethod {
    Get,
    Post,
}

/// Where a request goes: the landing page, the collection, a single entity
/// (with its validated textual identifier), or nowhere.
pub enum Route {
    Root,
    TorrentList,
    TorrentEntity(String),
    NoRoute,
}

pub enum SpecRoute {
    Root,
    TorrentList,
    TorrentEntity(Seq<char>),
    NoRoute,
}

impl View for Route {
    type V = SpecRoute;

    open spec fn view(&self) -> SpecRoute {
        match self {
            Route::Root => SpecRoute::Root,
            Route::TorrentList => SpecRoute::TorrentList,
            Route::TorrentEntity(h) => SpecRoute::TorrentEntity(h@),
            Route::NoRoute => SpecRoute::NoRoute,
        }
    }
}

/// The fixed route table: `GET /`, `GET /t`, and `GET`/`POST` on
/// `/t/` followed by exactly forty hexadecimal digit characters. Anything
/// else matches no route.
pub open spec fn spec_route(method: HttpMethod, path: Seq<char>) -> SpecRoute {
    if method == HttpMethod::Get && path == "/"@ {
        SpecRoute::Root
    } else if method == HttpMethod::Get && path == "/t"@ {
        SpecRoute::TorrentList
    } else if path.len() == 43 && path.subrange(0, 3) == "/t/"@ && valid_info_hash(
        path.subrange(3, 43),
    ) {
        SpecRoute::TorrentEntity(path.subrange(3, 43))
    } else {
        SpecRoute::NoRoute
    }
}

/// Matches a method and path against the route table.
#[verifier::loop_isolation(false)]
pub fn route(method: HttpMethod, path: &str) -> (r: Route)
    ensures
        r@ == spec_route(method, path@),
{
    if method == HttpMethod::Get && str_eq(path, "/") {
        return Route::Root;
    }
    if method == HttpMethod::Get && str_eq(path, "/t") {
        return Route::TorrentList;
    }
    let n = path.unicode_len();
    if n != 43 {
        return Route::NoRoute;
    }
    let prefix = path.substring_char(0, 3);
    if !str_eq(prefix, "/t/") {
        return Route::NoRoute;
    }
    let seg = path.substring_char(3, 43);
    let mut j: usize = 0;
    while j < 40
        invariant
            j <= 40,
            seg@ == path@.subrange(3, 43),
            seg@.len() == 40,
            forall|k: int| 0 <= k < j ==> is_hex_digit(#[trigger] seg@[k]),
        decreases 40 - j,
    {
        if !is_hex_digit_char(seg.get_char(j)) {
            return Route::NoRoute;
        }
        j = j + 1;
    }
    Route::TorrentEntity(String::from_str(seg))
}

/// The query parameters the routes read.
pub struct ApiQuery {
    pub token: Option<String>,
    pub offset: Option<String>,
    pub limit: Option<String>,
    pub action: Option<String>,
}

pub struct SpecApiQuery {
    pub token: Option<Seq<char>>,
    pub offset: Option<Seq<char>>,
    pub limit: Option<Seq<char>>,
    pub action: Option<Seq<char>>,
}

impl View for ApiQuery {
    type V = SpecApiQuery;

    open spec fn view(&self) -> SpecApiQuery {
        SpecApiQuery {
            token: opt_string_view(self.token),
            offset: opt_string_view(self.offset),
            limit: opt_string_view(self.limit),
            action: opt_string_view(self.action),
        }
    }
}

fn opt_as_str(o: &Option<String>) -> (r: Option<&str>)
    ensures
        view_opt(r) == opt_string_view(*o),
{
    match o {
        Some(s) => Some(s.as_str()),
        None => None,
    }
}

/// The state shared by all request handlers: the token table and the handle
/// to the tracking engine.
pub struct UdptState {
    pub access_tokens: AccessTokenStore,
    pub tracker: TrackerEngine,
}

impl UdptState {
    /// Fresh server state around an engine, with the configured access
    /// token bound to its principal.
    pub fn new(tracker: TrackerEngine) -> (r: UdptState)
        ensures
            r.tracker == tracker,
            r.access_tokens.model() == seq![("h311o"@, "naim"@)],
    {
        let mut access_tokens = AccessTokenStore::new();
        access_tokens.insert(String::from_str("h311o"), String::from_str("naim"));
        proof {
            assert(access_tokens.model() =~= seq![("h311o"@, "naim"@)]);
        }
        UdptState { access_tokens, tracker }
    }
}

/// One request through the pipeline: resolve the token, match the route,
/// run the handler. Yields the structured reply and the engine state left
/// behind.
pub open spec fn spec_dispatch(
    m: EngineModel,
    toks: TokenModel,
    method: HttpMethod,
    path: Seq<char>,
    q: SpecApiQuery,
) -> (SpecHttpReply, EngineModel) {
    let authed = spec_resolve(toks, q.token) is Some;
    match spec_route(method, path) {
        SpecRoute::Root => (spec_view_root(), m),
        SpecRoute::TorrentList => (spec_torrent_list(m, authed, q.offset, q.limit), m),
        SpecRoute::TorrentEntity(h) => if method == HttpMethod::Get {
            (spec_torrent_stats(m, authed, h), m)
        } else {
            spec_torrent_action(m, authed, h, q.action)
        },
        SpecRoute::NoRoute => (SpecHttpReply { status: 404, body: SpecResponseBody::Empty }, m),
    }
}

/// Runs one request against the server state, yielding the structured
/// reply.
pub fn dispatch(state: &mut UdptState, method: HttpMethod, path: &str, query: &ApiQuery) -> (r:
    HttpReply)
    ensures
        r@ == spec_dispatch(
            old(state).tracker.model(),
            old(state).access_tokens.model(),
            method,
            path@,
            query@,
        ).0,
        final(state).tracker.model() == spec_dispatch(
            old(state).tracker.model(),
            old(state).access_tokens.model(),
            method,
            path@,
            query@,
        ).1,
        final(state).access_tokens == old(state).access_tokens,
{
    let ctx = authenticate(&state.access_tokens, opt_as_str(&query.token));
    match route(method, path) {
        Route::Root => view_root(),
        Route::TorrentList => view_torrent_list(
            &state.tracker,
            &ctx,
            opt_as_str(&query.offset),
            opt_as_str(&query.limit),
        ),
        Route::TorrentEntity(h) => match method {
            HttpMethod::Get => view_torrent_stats(&state.tracker, &ctx, h.as_str()),
            HttpMethod::Post => torrent_action(
                &mut state.tracker,
                &ctx,
                h.as_str(),
                opt_as_str(&query.action),
            ),
        },
        Route::NoRoute => HttpReply { status: STATUS_NOT_FOUND, body: ResponseBody::Empty },
    }
}

pub open spec fn spec_handle_request(
    m: EngineModel,
    toks: TokenModel,
    method: HttpMethod,
    path: Seq<char>,
    q: SpecApiQuery,
) -> (SpecRenderedReply, EngineModel) {
    let d = spec_dispatch(m, toks, method, path, q);
    (spec_render(d.0), d.1)
}

/// Runs one request and renders the reply to wire form, server header
/// included.
pub fn handle_request(state: &mut UdptState, method: HttpMethod, path: &str, query: &ApiQuery) -> (r:
    RenderedReply)
    ensures
        r@ == spec_handle_request(
            old(state).tracker.model(),
            old(state).access_tokens.model(),
            method,
            path@,
            query@,
        ).0,
        final(state).tracker.model() == spec_handle_request(
            old(state).tracker.model(),
            old(state).access_tokens.model(),
            method,
            path@,
            query@,
        ).1,
        final(state).access_tokens == old(state).access_tokens,
        r.server@ == spec_server_header(),
{
    let rep = dispatch(state, method, path, query);
    render(&rep)
}

/// Law: a request to either authenticated route without a resolvable token
/// is answered with the access-denied error and leaves the engine
/// untouched — as an OK-status JSON error on the collection route, and with
/// the unauthorized status on the single-entity routes.
pub proof fn lemma_unauthenticated_requests_denied(
    m: EngineModel,
    toks: TokenModel,
    method: HttpMethod,
    path: Seq<char>,
    q: SpecApiQuery,
)
    requires
        spec_resolve(toks, q.token) is None,
    ensures
        spec_route(method, path) is TorrentList ==> spec_dispatch(m, toks, method, path, q) == ((
            SpecHttpReply {
                status: 200,
                body: SpecResponseBody::Json(SpecApiResponse::Error("access_denied"@)),
            },
            m,
        )),
        spec_route(method, path) matches SpecRoute::TorrentEntity(_) ==> spec_dispatch(
            m,
            toks,
            method,
            path,
            q,
        ) == ((
            SpecHttpReply {
                status: 401,
                body: SpecResponseBody::Json(SpecApiResponse::Error("access_denied"@)),
            },
            m,
        )),
{
}

} // verus!
