//! Forwarding writes to the configured `write_target` server: choosing that
//! server, translating nexus IDs back to upstream IDs, building the request
//! parameters, and judging the upstream reply.

use vstd::prelude::*;
use crate::config::{Config, ServerConfig};
use crate::error::{ErrorCode, SubsonicError};
use crate::nexus::{IdTemplate, parse_entity_id, parse_entity_id_model};
use crate::sql::views;
use crate::text::{chars_eq_str, chars_of};

verus! {

// ── The write target ──────────────────────────────────────────────────────────

/// Whether some configured server is named `name`.
pub open spec fn server_named(cfg: Config, name: Seq<char>) -> bool {
    exists|i: int| 0 <= i < cfg.servers@.len() && (#[trigger] cfg.servers@[i]).name@ == name
}

/// The message of a missing `write_target`.
pub open spec fn no_write_target_message() -> Seq<char> {
    "No write_target configured; playlist operations are read-only"@
}

/// The message of a `write_target` that names no configured server.
pub open spec fn unknown_write_target_message(name: Seq<char>) -> Seq<char> {
    "write_target server '"@ + name + "' not found in config"@
}

/// The server that writes go to: the first configured server whose name is
/// the `write_target`; without one, writes are not authorized.
pub fn write_target(cfg: &Config) -> (r: Result<&ServerConfig, SubsonicError>)
    ensures
        match r {
            Ok(s) => cfg.nexus.write_target matches Some(n) && s.name@ == n@ && exists|i: int|
                0 <= i < cfg.servers@.len() && *s == cfg.servers@[i] && forall|j: int|
                    0 <= j < i ==> (#[trigger] cfg.servers@[j]).name@ != n@,
            Err(e) => e.code == ErrorCode::NotAuthorized && match cfg.nexus.write_target {
                None => e.message@ == no_write_target_message(),
                Some(n) => !server_named(*cfg, n@) && e.message@ == unknown_write_target_message(
                    n@,
                ),
            },
        },
{
    match &cfg.nexus.write_target {
        None => Err(
            SubsonicError::not_authorized(
                "No write_target configured; playlist operations are read-only",
            ),
        ),
        Some(name) => match cfg.server_by_name(name.as_str()) {
            Some(s) => Ok(s),
            None => {
                let mut m = String::from_str("write_target server '");
                m.append(name.as_str());
                m.append("' not found in config");
                Err(SubsonicError::not_authorized(m.as_str()))
            },
        },
    }
}

// ── IDs ───────────────────────────────────────────────────────────────────────

/// The upstream IDs that nexus IDs stand for.
pub open spec fn upstream_ids_of(template: IdTemplate, ids: Seq<String>) -> Seq<Seq<char>> {
    ids.map_values(|s: String| parse_entity_id_model(template, s@).1)
}

/// Maps nexus song IDs back to upstream IDs using the configured template.
pub fn translate_ids(template: IdTemplate, nexus_ids: &Vec<String>) -> (r: Vec<String>)
    ensures
        views(r@) == upstream_ids_of(template, nexus_ids@),
{
    let mut r: Vec<String> = Vec::new();
    let mut i: usize = 0;
    while i < nexus_ids.len()
        invariant
            i <= nexus_ids@.len(),
            r@.len() == i,
            forall|j: int|
                0 <= j < i ==> (#[trigger] r@[j])@ == parse_entity_id_model(
                    template,
                    nexus_ids@[j]@,
                ).1,
        decreases nexus_ids.len() - i,
    {
        let p = parse_entity_id(template, nexus_ids[i].as_str());
        r.push(p.upstream_id);
        i = i + 1;
    }
    assert(views(r@) =~= upstream_ids_of(template, nexus_ids@));
    r
}

// ── Request parameters ────────────────────────────────────────────────────────

/// The key/value pairs as character sequences.
pub open spec fn pair_views(v: Seq<(String, String)>) -> Seq<(Seq<char>, Seq<char>)> {
    v.map_values(|p: (String, String)| (p.0@, p.1@))
}

/// The pairs `(key, v)` for every value `v`.
pub open spec fn keyed(key: Seq<char>, vals: Seq<Seq<char>>) -> Seq<(Seq<char>, Seq<char>)> {
    vals.map_values(|v: Seq<char>| (key, v))
}

/// One pair `(key, v)` when `v` is given and not empty, none otherwise.
pub open spec fn nonempty_pair(key: Seq<char>, v: Option<Seq<char>>) -> Seq<
    (Seq<char>, Seq<char>),
> {
    match v {
        Some(s) => if s.len() > 0 {
            seq![(key, s)]
        } else {
            Seq::empty()
        },
        None => Seq::empty(),
    }
}

/// Appends `(key, v)` for every value `v` of `vals`.
pub fn push_keyed(out: &mut Vec<(String, String)>, key: &str, vals: &Vec<String>)
    ensures
        pair_views(final(out)@) == pair_views(old(out)@) + keyed(key@, views(vals@)),
{
    let ghost start = out@;
    let mut i: usize = 0;
    while i < vals.len()
        invariant
            i <= vals@.len(),
            out@.len() == start.len() + i,
            forall|j: int| 0 <= j < start.len() ==> #[trigger] out@[j] == start[j],
            forall|j: int|
                0 <= j < i ==> (#[trigger] out@[start.len() + j]).0@ == key@ && out@[start.len()
                    + j].1@ == vals@[j]@,
        decreases vals.len() - i,
    {
        out.push((String::from_str(key), vals[i].clone()));
        i = i + 1;
    }
    assert forall|j: int| 0 <= j < out@.len() implies pair_views(out@)[j] == (pair_views(start)
        + keyed(key@, views(vals@)))[j] by {
        if j >= start.len() {
            assert(out@[start.len() + (j - start.len())] == out@[j]);
        }
    }
    assert(pair_views(out@) =~= pair_views(start) + keyed(key@, views(vals@)));
}

/// Appends `(key, v)` when `v` is given and not empty.
pub fn push_nonempty(out: &mut Vec<(String, String)>, key: &str, v: &Option<String>)
    ensures
        pair_views(final(out)@) == pair_views(old(out)@) + nonempty_pair(
            key@,
            match *v {
                Some(s) => Some(s@),
                None => None,
            },
        ),
{
    match v {
        Some(s) => {
            if s.as_str().unicode_len() > 0 {
                out.push((String::from_str(key), s.clone()));
            }
        },
        None => {},
    }
    assert(pair_views(final(out)@) =~= pair_views(old(out)@) + nonempty_pair(
        key@,
        match *v {
            Some(s) => Some(s@),
            None => None,
        },
    ));
}

// ── Upstream replies ──────────────────────────────────────────────────────────

/// What the logic reads of an upstream JSON reply.
pub struct UpstreamReply {
    /// Whether the reply holds a `subsonic-response` object.
    pub has_envelope: bool,
    /// Its `status` field, where that is a string.
    pub status: Option<String>,
    /// Its `error.message` field, where that is a string.
    pub error_message: Option<String>,
}

/// Whether an upstream reply reports success.
pub open spec fn reply_ok(r: UpstreamReply) -> bool {
    r.has_envelope && r.status is Some && r.status->0@ == "ok"@
}

/// The message of a failed upstream reply.
pub open spec fn reply_error_message(r: UpstreamReply) -> Seq<char> {
    if !r.has_envelope {
        "Unexpected upstream response format"@
    } else {
        match r.error_message {
            Some(m) => m@,
            None => "upstream error"@,
        }
    }
}

/// Checks the Subsonic envelope of an upstream reply: a reply without the
/// envelope, or whose status is not `ok`, becomes a generic error carrying the
/// upstream message.
pub fn check_upstream_reply(reply: &UpstreamReply) -> (r: Result<(), SubsonicError>)
    ensures
        r is Ok <==> reply_ok(*reply),
        r is Err ==> r->Err_0.code == ErrorCode::Generic && r->Err_0.message@
            == reply_error_message(*reply),
{
    if !reply.has_envelope {
        return Err(SubsonicError::generic("Unexpected upstream response format"));
    }
    let ok = match &reply.status {
        Some(s) => {
            let v = chars_of(s.as_str());
            chars_eq_str(&v, "ok")
        },
        None => false,
    };
    if ok {
        Ok(())
    } else {
        match &reply.error_message {
            Some(m) => Err(SubsonicError::generic(m.as_str())),
            None => Err(SubsonicError::generic("upstream error")),
        }
    }
}

} // verus!
