//! Response data shapes and the encoder that renders the tagged JSON
//! envelope, plus the fixed server-identification header every response
//! carries.

use vstd::prelude::*;
use vstd::string::StringExecFns;
use crate::hex::{hex_char_of, hex_of, encode_info_hash};

verus! {

pub const STATUS_OK: u16 = 200;

pub const STATUS_BAD_REQUEST: u16 = 400;

pub const STATUS_UNAUTHORIZED: u16 = 401;

pub const STATUS_NOT_FOUND: u16 = 404;

pub const STATUS_INTERNAL_SERVER_ERROR: u16 = 500;

/// Read-only projection of one entity's engine state.
#[derive(Clone, Copy, PartialEq, Eq, Structural, Debug)]
pub struct TorrentInfo {
    pub is_flagged: bool,
    pub leecher_count: u32,
    pub seeder_count: u32,
    pub completed: u32,
}

/// One page of the entity listing.
pub struct TorrentList {
    pub offset: u32,
    pub length: u32,
    pub total: u32,
    pub torrents: Vec<[u8; 20]>,
}

/// The binary identifiers of a stored sequence, as byte sequences.
pub open spec fn id_seq_of(s: Seq<[u8; 20]>) -> Seq<Seq<u8>> {
    s.map(|i: int, a: [u8; 20]| a@)
}

pub struct SpecTorrentList {
    pub offset: u32,
    pub length: u32,
    pub total: u32,
    pub torrents: Seq<Seq<u8>>,
}

impl View for TorrentList {
    type V = SpecTorrentList;

    open spec fn view(&self) -> SpecTorrentList {
        SpecTorrentList {
            offset: self.offset,
            length: self.length,
            total: self.total,
            torrents: id_seq_of(self.torrents@),
        }
    }
}

/// The response envelope: exactly one variant is serialized per response.
pub enum APIResponse {
    Error(String),
    TorrentList(TorrentList),
    TorrentInfo(TorrentInfo),
}

pub enum SpecApiResponse {
    Error(Seq<char>),
    TorrentList(SpecTorrentList),
    TorrentInfo(TorrentInfo),
}

impl View for APIResponse {
    type V = SpecApiResponse;

    open spec fn view(&self) -> SpecApiResponse {
        match self {
            APIResponse::Error(m) => SpecApiResponse::Error(m@),
            APIResponse::TorrentList(l) => SpecApiResponse::TorrentList(l@),
            APIResponse::TorrentInfo(i) => SpecApiResponse::TorrentInfo(*i),
        }
    }
}

/// What a handler replies with: a JSON envelope, the literal landing page,
/// or an empty body.
pub enum ResponseBody {
    Json(APIResponse),
    Html(String),
    Empty,
}

pub enum SpecResponseBody {
    Json(SpecApiResponse),
    Html(Seq<char>),
    Empty,
}

impl View for ResponseBody {
    type V = SpecResponseBody;

    open spec fn view(&self) -> SpecResponseBody {
        match self {
            ResponseBody::Json(r) => SpecResponseBody::Json(r@),
            ResponseBody::Html(h) => SpecResponseBody::Html(h@),
            ResponseBody::Empty => SpecResponseBody::Empty,
        }
    }
}

/// A handler's reply: status code and body.
pub struct HttpReply {
    pub status: u16,
    pub body: ResponseBody,
}

pub struct SpecHttpReply {
    pub status: u16,
    pub body: SpecResponseBody,
}

impl View for HttpReply {
    type V = SpecHttpReply;

    open spec fn view(&self) -> SpecHttpReply {
        SpecHttpReply { status: self.status, body: self.body@ }
    }
}

/// Decimal rendering of a number, most significant digit first and without
/// leading zeroes.
pub open spec fn dec_of(n: nat) -> Seq<char>
    decreases n,
{
    if n < 10 {
        seq![hex_char_of(n as u8)]
    } else {
        dec_of(n / 10) + seq![hex_char_of((n % 10) as u8)]
    }
}

fn dec_digit_str(d: u32) -> (r: &'static str)
    requires
        d < 10,
    ensures
        r@ == seq![hex_char_of(d as u8)],
{
    let r: &'static str = if d == 0 {
        "0"
    } else if d == 1 {
        "1"
    } else if d == 2 {
        "2"
    } else if d == 3 {
        "3"
    } else if d == 4 {
        "4"
    } else if d == 5 {
        "5"
    } else if d == 6 {
        "6"
    } else if d == 7 {
        "7"
    } else if d == 8 {
        "8"
    } else {
        "9"
    };
    proof {
        reveal_strlit("0");
        reveal_strlit("1");
        reveal_strlit("2");
        reveal_strlit("3");
        reveal_strlit("4");
        reveal_strlit("5");
        reveal_strlit("6");
        reveal_strlit("7");
        reveal_strlit("8");
        reveal_strlit("9");
        assert(r@ =~= seq![hex_char_of(d as u8)]);
    }
    r
}

/// Renders a number in decimal.
pub fn u32_to_dec(n: u32) -> (r: String)
    ensures
        r@ == dec_of(n as nat),
    decreases n,
{
    if n < 10 {
        let mut s = String::new();
        s.append(dec_digit_str(n));
        proof {
            assert(s@ =~= dec_of(n as nat));
        }
        s
    } else {
        proof {
            vstd::arithmetic::div_mod::lemma_div_decreases(n as int, 10);
            vstd::arithmetic::div_mod::lemma_mod_division_less_than_divisor(n as int, 10);
        }
        let mut s = u32_to_dec(n / 10);
        s.append(dec_digit_str(n % 10));
        s
    }
}

/// The identifiers of a page, each a quoted lowercase hexadecimal string,
/// separated by commas.
pub open spec fn hex_items_of(ids: Seq<Seq<u8>>) -> Seq<char>
    decreases ids.len(),
{
    if ids.len() == 0 {
        Seq::empty()
    } else if ids.len() == 1 {
        "\""@ + hex_of(ids[0]) + "\""@
    } else {
        hex_items_of(ids.drop_last()) + ",\""@ + hex_of(ids.last()) + "\""@
    }
}

fn render_hex_items(ids: &Vec<[u8; 20]>) -> (r: String)
    ensures
        r@ == hex_items_of(id_seq_of(ids@)),
{
    let ghost dv = id_seq_of(ids@);
    let mut s = String::new();
    let n = ids.len();
    let mut i: usize = 0;
    while i < n
        invariant
            i <= n,
            n == ids@.len(),
            dv == id_seq_of(ids@),
            dv.len() == n,
            s@ == hex_items_of(dv.take(i as int)),
        decreases n - i,
    {
        if i == 0 {
            s.append("\"");
        } else {
            s.append(",\"");
        }
        let h = encode_info_hash(&ids[i]);
        s.append(h.as_str());
        s.append("\"");
        proof {
            assert(dv.take(i + 1).drop_last() =~= dv.take(i as int));
            assert(dv.take(i + 1).last() == dv[i as int]);
            assert(dv[i as int] == ids@[i as int]@);
            assert(s@ =~= hex_items_of(dv.take(i + 1)));
        }
        i = i + 1;
    }
    proof {
        assert(dv.take(n as int) =~= dv);
    }
    s
}

pub open spec fn json_bool(b: bool) -> Seq<char> {
    if b {
        "true"@
    } else {
        "false"@
    }
}

/// The JSON text of an envelope: a fixed discriminator field first, then the
/// variant's fields in declaration order. Error messages are emitted
/// verbatim; the library only puts plain lowercase tokens there.
pub open spec fn json_of(r: SpecApiResponse) -> Seq<char> {
    match r {
        SpecApiResponse::Error(m) => "{\"type\":\"error\",\"message\":\""@ + m + "\"}"@,
        SpecApiResponse::TorrentList(l) => "{\"type\":\"torrent_list\",\"offset\":"@ + dec_of(
            l.offset as nat,
        ) + ",\"length\":"@ + dec_of(l.length as nat) + ",\"total\":"@ + dec_of(l.total as nat)
            + ",\"torrents\":["@ + hex_items_of(l.torrents) + "]}"@,
        SpecApiResponse::TorrentInfo(i) => "{\"type\":\"torrent_info\",\"is_flagged\":"@
            + json_bool(i.is_flagged) + ",\"leecher_count\":"@ + dec_of(i.leecher_count as nat)
            + ",\"seeder_count\":"@ + dec_of(i.seeder_count as nat) + ",\"completed\":"@ + dec_of(
            i.completed as nat,
        ) + "}"@,
    }
}

/// Serializes one envelope as JSON.
pub fn encode_response(resp: &APIResponse) -> (r: String)
    ensures
        r@ == json_of(resp@),
{
    match resp {
        APIResponse::Error(m) => {
            let mut s = String::from_str("{\"type\":\"error\",\"message\":\"");
            s.append(m.as_str());
            s.append("\"}");
            s
        },
        APIResponse::TorrentList(l) => {
            let mut s = String::from_str("{\"type\":\"torrent_list\",\"offset\":");
            let offset_dec = u32_to_dec(l.offset);
            s.append(offset_dec.as_str());
            s.append(",\"length\":");
            let length_dec = u32_to_dec(l.length);
            s.append(length_dec.as_str());
            s.append(",\"total\":");
            let total_dec = u32_to_dec(l.total);
            s.append(total_dec.as_str());
            s.append(",\"torrents\":[");
            let items = render_hex_items(&l.torrents);
            s.append(items.as_str());
            s.append("]}");
            s
        },
        APIResponse::TorrentInfo(i) => {
            let mut s = String::from_str("{\"type\":\"torrent_info\",\"is_flagged\":");
            if i.is_flagged {
                s.append("true");
            } else {
                s.append("false");
            }
            s.append(",\"leecher_count\":");
            let leecher_dec = u32_to_dec(i.leecher_count);
            s.append(leecher_dec.as_str());
            s.append(",\"seeder_count\":");
            let seeder_dec = u32_to_dec(i.seeder_count);
            s.append(seeder_dec.as_str());
            s.append(",\"completed\":");
            let completed_dec = u32_to_dec(i.completed);
            s.append(completed_dec.as_str());
            s.append("}");
            s
        },
    }
}

/// The fixed server-identification header value stamped on every response.
pub open spec fn spec_server_header() -> Seq<char> {
    "udpt/0.1.0"@
}

pub fn server_header() -> (r: &'static str)
    ensures
        r@ == spec_server_header(),
{
    "udpt/0.1.0"
}

/// How a reply body is labelled on the wire.
#[derive(Clone, Copy, PartialEq, Eq, Structural, Debug)]
pub enum BodyKind {
    Json,
    Html,
    NoBody,
}

/// A reply rendered to wire form: status, content kind, body text and the
/// server header.
pub struct RenderedReply {
    pub status: u16,
    pub kind: BodyKind,
    pub body: String,
    pub server: String,
}

pub struct SpecRenderedReply {
    pub status: u16,
    pub kind: BodyKind,
    pub body: Seq<char>,
    pub server: Seq<char>,
}

impl View for RenderedReply {
    type V = SpecRenderedReply;

    open spec fn view(&self) -> SpecRenderedReply {
        SpecRenderedReply {
            status: self.status,
            kind: self.kind,
            body: self.body@,
            server: self.server@,
        }
    }
}

pub open spec fn spec_render(rep: SpecHttpReply) -> SpecRenderedReply {
    match rep.body {
        SpecResponseBody::Json(j) => SpecRenderedReply {
            status: rep.status,
            kind: BodyKind::Json,
            body: json_of(j),
            server: spec_server_header(),
        },
        SpecResponseBody::Html(h) => SpecRenderedReply {
            status: rep.status,
            kind: BodyKind::Html,
            body: h,
            server: spec_server_header(),
        },
        SpecResponseBody::Empty => SpecRenderedReply {
            status: rep.status,
            kind: BodyKind::NoBody,
            body: Seq::empty(),
            server: spec_server_header(),
        },
    }
}

/// Law: every rendered response, whatever its status and body, carries the
/// fixed server-identification header value.
pub proof fn lemma_every_response_stamped(rep: SpecHttpReply)
    ensures
        spec_render(rep).server == spec_server_header(),
{
}

/// Renders a handler reply to wire form and stamps the server header.
pub fn render(rep: &HttpReply) -> (r: RenderedReply)
    ensures
        r@ == spec_render(rep@),
{
    match &rep.body {
        ResponseBody::Json(j) => RenderedReply {
            status: rep.status,
            kind: BodyKind::Json,
            body: encode_response(j),
            server: String::from_str(server_header()),
        },
        ResponseBody::Html(h) => RenderedReply {
            status: rep.status,
            kind: BodyKind::Html,
            body: h.clone(),
            server: String::from_str(server_header()),
        },
        ResponseBody::Empty => RenderedReply {
            status: rep.status,
            kind: BodyKind::NoBody,
            body: String::new(),
            server: String::from_str(server_header()),
        },
    }
}

} // verus!
