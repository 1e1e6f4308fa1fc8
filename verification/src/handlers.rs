//! The route handlers: landing page, entity listing, entity statistics and
//! the mutating action dispatcher. Each handler is a pure function of the
//! authentication context, the validated request parameters and the engine
//! state, and its reply is pinned down by a specification function.

use vstd::prelude::*;
use vstd::string::StringExecFns;
use crate::auth::RequestContext;
use crate::engine::{
    EngineModel, TrackerEngine, spec_add, spec_lookup, spec_remove, spec_set_flag,
};
use crate::hex::{decode_info_hash, unhex, valid_info_hash};
use crate::responses::{
    APIResponse, HttpReply, ResponseBody, SpecApiResponse, SpecHttpReply, SpecResponseBody,
    SpecTorrentList, TorrentInfo, TorrentList, STATUS_BAD_REQUEST, STATUS_INTERNAL_SERVER_ERROR,
    STATUS_NOT_FOUND, STATUS_OK, STATUS_UNAUTHORIZED, id_seq_of,
};
use crate::text::str_eq;
use crate::validate::{
    effective_limit, parse_param_u32, spec_effective_limit, spec_opt_param_u32, view_opt,
};

verus! {

/// The literal landing page.
pub open spec fn spec_root_page() -> Seq<char> {
    "Powered by <a href=\"https://github.com/naim94a/udpt\">https://github.com/naim94a/udpt</a>"@
}

pub fn root_page() -> (r: &'static str)
    ensures
        r@ == spec_root_page(),
{
    "Powered by <a href=\"https://github.com/naim94a/udpt\">https://github.com/naim94a/udpt</a>"
}

pub open spec fn spec_view_root() -> SpecHttpReply {
    SpecHttpReply { status: 200, body: SpecResponseBody::Html(spec_root_page()) }
}

/// The landing route: a literal HTML page, independent of authentication.
pub fn view_root() -> (r: HttpReply)
    ensures
        r@ == spec_view_root(),
{
    HttpReply { status: STATUS_OK, body: ResponseBody::Html(String::from_str(root_page())) }
}

fn error_reply(status: u16, message: &str) -> (r: HttpReply)
    ensures
        r@ == (SpecHttpReply {
            status,
            body: SpecResponseBody::Json(SpecApiResponse::Error(message@)),
        }),
{
    HttpReply { status, body: ResponseBody::Json(APIResponse::Error(String::from_str(message))) }
}

/// The stored identifiers in stored order.
pub open spec fn ids_of(m: EngineModel) -> Seq<Seq<u8>> {
    Seq::new(m.len(), |i: int| m[i].0)
}

/// The identifiers of one page: skip `off`, take up to `lim`.
pub open spec fn spec_page(m: EngineModel, off: u32, lim: u32) -> Seq<Seq<u8>> {
    if off >= m.len() {
        Seq::<Seq<u8>>::empty()
    } else if off + lim <= m.len() {
        ids_of(m).subrange(off as int, off as int + lim as int)
    } else {
        ids_of(m).subrange(off as int, m.len() as int)
    }
}

/// The listing route's reply. Authentication failure is reported as a plain
/// JSON error with an OK status, unlike the single-entity routes.
pub open spec fn spec_torrent_list(
    m: EngineModel,
    authed: bool,
    offp: Option<Seq<char>>,
    limp: Option<Seq<char>>,
) -> SpecHttpReply {
    if !authed {
        SpecHttpReply {
            status: 200,
            body: SpecResponseBody::Json(SpecApiResponse::Error("access_denied"@)),
        }
    } else {
        let off = spec_opt_param_u32(offp);
        let lim = spec_effective_limit(spec_opt_param_u32(limp));
        let page = spec_page(m, off, lim);
        SpecHttpReply {
            status: 200,
            body: SpecResponseBody::Json(
                SpecApiResponse::TorrentList(
                    SpecTorrentList {
                        offset: off,
                        length: page.len() as u32,
                        total: m.len() as u32,
                        torrents: page,
                    },
                ),
            ),
        }
    }
}

/// The collection route: requires authentication, then returns one page of
/// the stored identifiers with the engine's current count.
pub fn view_torrent_list(
    engine: &TrackerEngine,
    ctx: &RequestContext,
    offset: Option<&str>,
    limit: Option<&str>,
) -> (r: HttpReply)
    ensures
        r@ == spec_torrent_list(
            engine.model(),
            ctx.current_user is Some,
            view_opt(offset),
            view_opt(limit),
        ),
{
    if ctx.current_user.is_none() {
        return error_reply(STATUS_OK, "access_denied");
    }
    let off = parse_param_u32(offset);
    let lim = effective_limit(parse_param_u32(limit));
    let total = engine.count();
    let ghost m = engine.model();
    let mut torrents: Vec<[u8; 20]> = Vec::new();
    let mut i: u32 = off;
    let mut cnt: u32 = 0;
    while i < total && cnt < lim
        invariant
            total as nat == m.len(),
            m == engine.model(),
            lim <= 4096,
            cnt <= lim,
            cnt as int == torrents@.len(),
            i as int == off as int + cnt as int,
            (off as int) < m.len() ==> i as int <= m.len() && id_seq_of(torrents@) == ids_of(
                m,
            ).subrange(off as int, i as int),
            (off as int) >= m.len() ==> cnt == 0,
        decreases total - i,
    {
        let id = engine.id_at(i as usize);
        torrents.push(id);
        proof {
            assert(id_seq_of(torrents@) =~= ids_of(m).subrange(off as int, i + 1));
        }
        i = i + 1;
        cnt = cnt + 1;
    }
    proof {
        assert(id_seq_of(torrents@) =~= spec_page(m, off, lim));
    }
    let list = TorrentList { offset: off, length: cnt, total, torrents };
    HttpReply { status: STATUS_OK, body: ResponseBody::Json(APIResponse::TorrentList(list)) }
}

/// The single-entity read route's reply: unauthorized, invalid identifier,
/// unknown identifier, or the entity's statistics.
pub open spec fn spec_torrent_stats(m: EngineModel, authed: bool, h: Seq<char>) -> SpecHttpReply {
    if !authed {
        SpecHttpReply {
            status: 401,
            body: SpecResponseBody::Json(SpecApiResponse::Error("access_denied"@)),
        }
    } else if !valid_info_hash(h) {
        SpecHttpReply {
            status: 400,
            body: SpecResponseBody::Json(SpecApiResponse::Error("invalid_info_hash"@)),
        }
    } else {
        match spec_lookup(m, unhex(h)) {
            None => SpecHttpReply {
                status: 404,
                body: SpecResponseBody::Json(SpecApiResponse::Error("not_found"@)),
            },
            Some(e) => SpecHttpReply {
                status: 200,
                body: SpecResponseBody::Json(
                    SpecApiResponse::TorrentInfo(
                        TorrentInfo {
                            is_flagged: e.flagged,
                            leecher_count: e.leechers,
                            seeder_count: e.seeders,
                            completed: e.completed,
                        },
                    ),
                ),
            },
        }
    }
}

/// The single-entity read route: flag state and statistics of one entity.
pub fn view_torrent_stats(engine: &TrackerEngine, ctx: &RequestContext, info_hash: &str) -> (r:
    HttpReply)
    ensures
        r@ == spec_torrent_stats(engine.model(), ctx.current_user is Some, info_hash@),
{
    if ctx.current_user.is_none() {
        return error_reply(STATUS_UNAUTHORIZED, "access_denied");
    }
    let id = match decode_info_hash(info_hash) {
        Some(b) => b,
        None => {
            return error_reply(STATUS_BAD_REQUEST, "invalid_info_hash");
        },
    };
    match engine.lookup(&id) {
        None => error_reply(STATUS_NOT_FOUND, "not_found"),
        Some(entry) => {
            let is_flagged = entry.is_flagged();
            let (seeders, completed, leechers) = entry.get_stats();
            HttpReply {
                status: STATUS_OK,
                body: ResponseBody::Json(
                    APIResponse::TorrentInfo(
                        TorrentInfo {
                            is_flagged,
                            leecher_count: leechers,
                            seeder_count: seeders,
                            completed,
                        },
                    ),
                ),
            }
        },
    }
}

/// The action route's reply and the engine state it leaves behind.
/// Flagging is existence-independent and always replies OK; registration and
/// removal collapse engine failure to an opaque internal-error status.
pub open spec fn spec_torrent_action(
    m: EngineModel,
    authed: bool,
    h: Seq<char>,
    act: Option<Seq<char>>,
) -> (SpecHttpReply, EngineModel) {
    if !authed {
        (
            SpecHttpReply {
                status: 401,
                body: SpecResponseBody::Json(SpecApiResponse::Error("access_denied"@)),
            },
            m,
        )
    } else {
        match act {
            None => (
                SpecHttpReply {
                    status: 400,
                    body: SpecResponseBody::Json(SpecApiResponse::Error("action_required"@)),
                },
                m,
            ),
            Some(a) => {
                if !valid_info_hash(h) {
                    (
                        SpecHttpReply {
                            status: 400,
                            body: SpecResponseBody::Json(
                                SpecApiResponse::Error("invalid_info_hash"@),
                            ),
                        },
                        m,
                    )
                } else {
                    let id = unhex(h);
                    if a == "flag"@ {
                        (
                            SpecHttpReply { status: 200, body: SpecResponseBody::Empty },
                            spec_set_flag(m, id, true),
                        )
                    } else if a == "unflag"@ {
                        (
                            SpecHttpReply { status: 200, body: SpecResponseBody::Empty },
                            spec_set_flag(m, id, false),
                        )
                    } else if a == "add"@ {
                        (
                            SpecHttpReply {
                                status: if spec_add(m, id).1 {
                                    200
                                } else {
                                    500
                                },
                                body: SpecResponseBody::Empty,
                            },
                            spec_add(m, id).0,
                        )
                    } else if a == "remove"@ {
                        (
                            SpecHttpReply {
                                status: if spec_remove(m, id).1 {
                                    200
                                } else {
                                    500
                                },
                                body: SpecResponseBody::Empty,
                            },
                            spec_remove(m, id).0,
                        )
                    } else {
                        (
                            SpecHttpReply {
                                status: 400,
                                body: SpecResponseBody::Json(
                                    SpecApiResponse::Error("invalid_action"@),
                                ),
                            },
                            m,
                        )
                    }
                }
            },
        }
    }
}

/// The action route: dispatches a validated action against the engine.
pub fn torrent_action(
    engine: &mut TrackerEngine,
    ctx: &RequestContext,
    info_hash: &str,
    action: Option<&str>,
) -> (r: HttpReply)
    ensures
        r@ == spec_torrent_action(
            old(engine).model(),
            ctx.current_user is Some,
            info_hash@,
            view_opt(action),
        ).0,
        final(engine).model() == spec_torrent_action(
            old(engine).model(),
            ctx.current_user is Some,
            info_hash@,
            view_opt(action),
        ).1,
{
    if ctx.current_user.is_none() {
        return error_reply(STATUS_UNAUTHORIZED, "access_denied");
    }
    let act = match action {
        Some(a) => a,
        None => {
            return error_reply(STATUS_BAD_REQUEST, "action_required");
        },
    };
    let id = match decode_info_hash(info_hash) {
        Some(b) => b,
        None => {
            return error_reply(STATUS_BAD_REQUEST, "invalid_info_hash");
        },
    };
    if str_eq(act, "flag") {
        let _ = engine.set_flag(&id, true);
        HttpReply { status: STATUS_OK, body: ResponseBody::Empty }
    } else if str_eq(act, "unflag") {
        let _ = engine.set_flag(&id, false);
        HttpReply { status: STATUS_OK, body: ResponseBody::Empty }
    } else if str_eq(act, "add") {
        let ok = engine.add(&id);
        let status = if ok {
            STATUS_OK
        } else {
            STATUS_INTERNAL_SERVER_ERROR
        };
        HttpReply { status, body: ResponseBody::Empty }
    } else if str_eq(act, "remove") {
        let ok = engine.remove(&id, true);
        let status = if ok {
            STATUS_OK
        } else {
            STATUS_INTERNAL_SERVER_ERROR
        };
        HttpReply { status, body: ResponseBody::Empty }
    } else {
        error_reply(STATUS_BAD_REQUEST, "invalid_action")
    }
}

/// Law: when the offset is at or beyond the entity count, the listing is an
/// OK reply whose page is empty, has length zero, and still reports the
/// engine's current count as its total.
pub proof fn lemma_list_offset_beyond_count(
    m: EngineModel,
    offp: Option<Seq<char>>,
    limp: Option<Seq<char>>,
)
    requires
        spec_opt_param_u32(offp) >= m.len(),
    ensures
        spec_torrent_list(m, true, offp, limp) == (SpecHttpReply {
            status: 200,
            body: SpecResponseBody::Json(
                SpecApiResponse::TorrentList(
                    SpecTorrentList {
                        offset: spec_opt_param_u32(offp),
                        length: 0,
                        total: m.len() as u32,
                        torrents: Seq::<Seq<u8>>::empty(),
                    },
                ),
            ),
        }),
{
}

/// Law: a malformed identifier (wrong length or a non-hexadecimal
/// character) makes the read route and any action reply with the
/// invalid-identifier message and a bad-request status — never a server
/// error — and leaves the engine unchanged.
pub proof fn lemma_malformed_hash_rejected(m: EngineModel, h: Seq<char>, act: Option<Seq<char>>)
    requires
        !valid_info_hash(h),
    ensures
        spec_torrent_stats(m, true, h) == (SpecHttpReply {
            status: 400,
            body: SpecResponseBody::Json(SpecApiResponse::Error("invalid_info_hash"@)),
        }),
        act is Some ==> spec_torrent_action(m, true, h, act) == ((
            SpecHttpReply {
                status: 400,
                body: SpecResponseBody::Json(SpecApiResponse::Error("invalid_info_hash"@)),
            },
            m,
        )),
{
}

} // verus!
