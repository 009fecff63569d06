//! Media retrieval endpoints: stream, download, cover art, lyrics.

use vstd::prelude::*;
use crate::config::NexusConfig;
use crate::error::{ErrorCode, SubsonicError};
use crate::handlers::browsing::message_with_id;
use crate::handlers::playlists::opt_chars;
use crate::nexus::{parse_cover_art_id, parse_cover_art_id_model};
use crate::proxy::{nonempty_pair, pair_views, push_nonempty};
use crate::sql::with_number;
use crate::text::{decimal_i64, int_decimal, string_of};

verus! {

pub struct StreamParams {
    pub id: String,
    pub max_bit_rate: Option<i32>,
    pub format: Option<String>,
    pub time_offset: Option<i32>,
    pub size: Option<String>,
    pub estimate_content_length: Option<bool>,
    pub converted: Option<bool>,
}

pub struct DownloadParams {
    pub id: String,
}

pub struct GetCoverArtParams {
    pub id: String,
    pub size: Option<i32>,
}

pub struct GetLyricsParams {
    pub artist: Option<String>,
    pub title: Option<String>,
}

pub struct GetLyricsBySongIdParams {
    pub id: String,
    pub enhanced: Option<bool>,
}

pub struct GetAvatarParams {
    pub username: String,
}

pub struct GetCaptionsParams {
    pub id: String,
    pub format: Option<String>,
}

pub struct HlsParams {
    pub id: String,
    pub bit_rate: Option<i32>,
    pub audio_track: Option<String>,
}

/// How media reaches the client: an HTTP 302 redirect to the upstream URL, or
/// the bytes relayed through this server.
#[derive(Debug, Clone, Copy, PartialEq, Eq, Structural)]
pub enum MediaDelivery {
    Redirect,
    Proxy,
}

/// Media is relayed exactly when `proxy` is configured.
pub fn media_delivery(cfg: &NexusConfig) -> (r: MediaDelivery)
    ensures
        r == (if cfg.proxy {
            MediaDelivery::Proxy
        } else {
            MediaDelivery::Redirect
        }),
{
    if cfg.proxy {
        MediaDelivery::Proxy
    } else {
        MediaDelivery::Redirect
    }
}

/// The extra parameters `stream` forwards: the maximum bit rate when given,
/// and the format when given and not empty.
pub open spec fn stream_params_spec(p: StreamParams) -> Seq<(Seq<char>, Seq<char>)> {
    (match p.max_bit_rate {
        Some(m) => seq![("maxBitRate"@, int_decimal(m as int))],
        None => Seq::empty(),
    }) + nonempty_pair("format"@, opt_chars(p.format))
}

/// `stream` forwards the maximum bit rate (in decimal) when given, then the
/// format when given and not empty, under the names `maxBitRate` and
/// `format`, and nothing else.
pub proof fn law_stream_forwards_options(p: StreamParams, m: i32, f: Seq<char>)
    ensures
        p.max_bit_rate == Some(m) && p.format is Some && p.format->0@ == f && f.len() > 0
            ==> stream_params_spec(p) == seq![
            ("maxBitRate"@, int_decimal(m as int)),
            ("format"@, f),
        ],
        p.max_bit_rate is None && (p.format is None || p.format->0@.len() == 0)
            ==> stream_params_spec(p).len() == 0,
        stream_params_spec(p).len() == (if p.max_bit_rate is Some { 1int } else { 0 }) + (
        if p.format is Some && p.format->0@.len() > 0 {
            1int
        } else {
            0
        }),
{
    let a = match p.max_bit_rate {
        Some(v) => seq![("maxBitRate"@, int_decimal(v as int))],
        None => Seq::<(Seq<char>, Seq<char>)>::empty(),
    };
    let b = nonempty_pair("format"@, opt_chars(p.format));
    assert(stream_params_spec(p) == a + b);
    if p.max_bit_rate == Some(m) && p.format is Some && p.format->0@ == f && f.len() > 0 {
        assert(a + b =~= seq![("maxBitRate"@, int_decimal(m as int)), ("format"@, f)]);
    }
    if p.max_bit_rate is None && (p.format is None || p.format->0@.len() == 0) {
        assert(a + b =~= Seq::<(Seq<char>, Seq<char>)>::empty());
    }
}

pub fn stream_params(params: &StreamParams) -> (r: Vec<(String, String)>)
    ensures
        pair_views(r@) == stream_params_spec(*params),
{
    let mut r: Vec<(String, String)> = Vec::new();
    match params.max_bit_rate {
        Some(m) => {
            r.push((String::from_str("maxBitRate"), string_of(&decimal_i64(m as i64))));
        },
        None => {},
    }
    push_nonempty(&mut r, "format", &params.format);
    assert(pair_views(r@) =~= stream_params_spec(*params));
    r
}

/// The parameters of a media request upstream: the upstream song ID first,
/// then the endpoint's own.
pub fn media_params(upstream_id: &str, extra: Vec<(String, String)>) -> (r: Vec<(String, String)>)
    ensures
        pair_views(r@) == seq![("id"@, upstream_id@)] + pair_views(extra@),
{
    let mut r: Vec<(String, String)> = Vec::new();
    r.push((String::from_str("id"), String::from_str(upstream_id)));
    let ghost orig = extra@;
    let mut rest = extra;
    r.append(&mut rest);
    assert(pair_views(r@) =~= seq![("id"@, upstream_id@)] + pair_views(orig));
    r
}

/// The error of a media request for a song that is not in the library.
pub fn song_not_found(id: &str) -> (e: SubsonicError)
    ensures
        e.code == ErrorCode::NotFound,
        e.message@ == "Song not found: "@ + id@,
{
    let m = message_with_id("Song not found: ", id);
    SubsonicError::not_found(m.as_str())
}

/// The error of a song whose server is no longer configured.
pub fn server_not_configured(name: &str) -> (e: SubsonicError)
    ensures
        e.code == ErrorCode::Generic,
        e.message@ == "Server '"@ + name@ + "' not found in config"@,
{
    let mut m = message_with_id("Server '", name);
    m.append("' not found in config");
    SubsonicError::generic(m.as_str())
}

/// Where a cover-art request goes: the server DB id and the parameters of the
/// upstream `getCoverArt` call (the upstream cover-art id, and the size when
/// given).  An id that is not `{server_db_id}:{upstream_id}` is not found.
pub fn cover_art_request(params: &GetCoverArtParams) -> (r: Result<
    (i32, Vec<(String, String)>),
    SubsonicError,
>)
    ensures
        match parse_cover_art_id_model(params.id@) {
            Some((sid, up)) => r matches Ok((s, v)) && s == sid && pair_views(v@) == seq![
                ("id"@, up),
            ] + (match params.size {
                Some(n) => seq![("size"@, int_decimal(n as int))],
                None => Seq::empty(),
            }),
            None => r matches Err(e) && e.code == ErrorCode::NotFound && e.message@
                == "Invalid cover art id: "@ + params.id@,
        },
{
    match parse_cover_art_id(params.id.as_str()) {
        None => {
            let m = message_with_id("Invalid cover art id: ", params.id.as_str());
            Err(SubsonicError::not_found(m.as_str()))
        },
        Some((sid, up)) => {
            let mut v: Vec<(String, String)> = Vec::new();
            v.push((String::from_str("id"), String::from_str(up)));
            match params.size {
                Some(n) => {
                    v.push((String::from_str("size"), string_of(&decimal_i64(n as i64))));
                },
                None => {},
            }
            assert(pair_views(v@) =~= seq![("id"@, up@)] + (match params.size {
                Some(n) => seq![("size"@, int_decimal(n as int))],
                None => Seq::<(Seq<char>, Seq<char>)>::empty(),
            }));
            Ok((sid, v))
        },
    }
}

/// The error of a cover-art id whose server DB id is unknown.
pub fn cover_server_not_found(server_db_id: i32) -> (e: SubsonicError)
    ensures
        e.code == ErrorCode::NotFound,
        e.message@ == "Server "@ + int_decimal(server_db_id as int) + " not found"@,
{
    let mut m = with_number("Server ", server_db_id as i64);
    m.append(" not found");
    SubsonicError::not_found(m.as_str())
}

/// The error of a cover-art server that is no longer configured.
pub fn cover_server_not_configured(name: &str) -> (e: SubsonicError)
    ensures
        e.code == ErrorCode::Generic,
        e.message@ == "Server '"@ + name@ + "' not in config"@,
{
    let mut m = message_with_id("Server '", name);
    m.append("' not in config");
    SubsonicError::generic(m.as_str())
}

} // verus!
