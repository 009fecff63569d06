//! Podcast endpoints.

use vstd::prelude::*;
use crate::error::{ErrorCode, SubsonicError};
use crate::handlers::browsing::message_with_id;
use crate::sql::{sql_quote_spec, views, with_number, with_quoted};
use crate::queries::ends_with_part;
use crate::text::{holds_part, int_decimal};

verus! {

pub struct GetPodcastsParams {
    pub include_episodes: Option<bool>,
    pub id: Option<String>,
}

pub struct GetNewestPodcastsParams {
    pub count: Option<i32>,
}

pub struct GetPodcastEpisodeParams {
    pub id: String,
}

pub struct CreatePodcastChannelParams {
    pub url: String,
}

pub struct DeletePodcastChannelParams {
    pub id: String,
}

pub struct DeletePodcastEpisodeParams {
    pub id: String,
}

pub struct DownloadPodcastEpisodeParams {
    pub id: String,
}

/// Whether a `getPodcasts` answer carries the episodes of each channel
/// (it does unless the client says otherwise).
pub fn include_episodes(params: &GetPodcastsParams) -> (r: bool)
    ensures
        r == (match params.include_episodes {
            Some(b) => b,
            None => true,
        }),
{
    match params.include_episodes {
        Some(b) => b,
        None => true,
    }
}

pub const CHANNELS_SQL_HEAD: &'static str = "SELECT pc.id AS db_id, pc.upstream_id, pc.title, pc.metadata_json FROM podcast_channels pc WHERE 1=1 ";

pub const CHANNELS_SQL_TAIL: &'static str = " ORDER BY pc.title COLLATE NOCASE";

/// The SQL text listing podcast channels, restricted to one upstream channel
/// id when given.
pub open spec fn channels_sql_spec(id: Option<String>) -> Seq<char> {
    CHANNELS_SQL_HEAD@ + (match id {
        Some(i) => "AND pc.upstream_id = '"@ + sql_quote_spec(i@) + "'"@,
        None => Seq::empty(),
    }) + CHANNELS_SQL_TAIL@
}

pub fn channels_sql(params: &GetPodcastsParams) -> (r: String)
    ensures
        r@ == channels_sql_spec(params.id),
{
    let mut r = String::from_str(CHANNELS_SQL_HEAD);
    match &params.id {
        Some(i) => {
            let f = with_quoted("AND pc.upstream_id = '", i.as_str(), "'");
            r.append(f.as_str());
        },
        None => {},
    }
    r.append(CHANNELS_SQL_TAIL);
    r
}

pub const EPISODES_SQL: &'static str = "SELECT pe.id AS db_id, pe.upstream_id, pc.upstream_id AS channel_upstream_id, pe.title, pe.publish_date, pe.metadata_json FROM podcast_episodes pe JOIN podcast_channels pc ON pe.channel_id = pc.id ";

/// The SQL text of the newest episodes: newest first, 20 unless the client
/// asks for another count.
pub open spec fn newest_episodes_sql_spec(count: Option<i32>) -> Seq<char> {
    EPISODES_SQL@ + "ORDER BY pe.publish_date DESC NULLS LAST LIMIT "@ + int_decimal(
        match count {
            Some(n) => n as int,
            None => 20,
        },
    )
}

pub fn newest_episodes_sql(params: &GetNewestPodcastsParams) -> (r: String)
    ensures
        r@ == newest_episodes_sql_spec(params.count),
{
    let count: i64 = match params.count {
        Some(n) => n as i64,
        None => 20,
    };
    let mut r = String::from_str(EPISODES_SQL);
    let tail = with_number("ORDER BY pe.publish_date DESC NULLS LAST LIMIT ", count);
    r.append(tail.as_str());
    r
}

/// The SQL text of one episode, by its upstream id.
pub fn episode_sql(params: &GetPodcastEpisodeParams) -> (r: String)
    ensures
        r@ == EPISODES_SQL@ + "WHERE pe.upstream_id = '"@ + sql_quote_spec(params.id@) + "'"@,
{
    let mut r = String::from_str(EPISODES_SQL);
    let f = with_quoted("WHERE pe.upstream_id = '", params.id.as_str(), "'");
    r.append(f.as_str());
    r
}

/// The error of an episode id that names no stored episode.
pub fn episode_not_found(id: &str) -> (e: SubsonicError)
    ensures
        e.code == ErrorCode::NotFound,
        e.message@ == "Podcast episode not found: "@ + id@,
{
    let m = message_with_id("Podcast episode not found: ", id);
    SubsonicError::not_found(m.as_str())
}

/// The answer to every request that would change podcasts: this server keeps
/// the upstream podcasts read-only.
pub fn podcast_management_unsupported() -> (e: SubsonicError)
    ensures
        e.code == ErrorCode::NotAuthorized,
        e.message@ == "Podcast management is not supported"@,
{
    SubsonicError::not_authorized("Podcast management is not supported")
}

/// The positions, in order, at which `keys` holds `key`.
pub open spec fn positions_of(keys: Seq<Seq<char>>, key: Seq<char>) -> Seq<int>
    decreases keys.len(),
{
    if keys.len() == 0 {
        Seq::empty()
    } else {
        positions_of(keys.drop_last(), key) + (if keys.last() == key {
            seq![keys.len() - 1]
        } else {
            Seq::empty()
        })
    }
}

/// The episodes of one channel: the positions of the episode rows whose
/// channel is `channel_id`, in the order of the rows (newest first).
pub fn episodes_of_channel(episode_channels: &Vec<String>, channel_id: &String) -> (r: Vec<usize>)
    ensures
        r@.map_values(|i: usize| i as int) == positions_of(views(episode_channels@), channel_id@),
{
    let mut r: Vec<usize> = Vec::new();
    let mut i: usize = 0;
    while i < episode_channels.len()
        invariant
            i <= episode_channels@.len(),
            r@.map_values(|k: usize| k as int) == positions_of(
                views(episode_channels@).take(i as int),
                channel_id@,
            ),
        decreases episode_channels.len() - i,
    {
        let ghost before = r@;
        let ghost keys = views(episode_channels@).take(i + 1);
        assert(keys.drop_last() =~= views(episode_channels@).take(i as int));
        assert(keys.last() == episode_channels@[i as int]@);
        if episode_channels[i] == *channel_id {
            r.push(i);
            assert(r@.map_values(|k: usize| k as int) =~= before.map_values(|k: usize| k as int)
                + seq![i as int]);
        } else {
            assert(r@.map_values(|k: usize| k as int) =~= before.map_values(|k: usize| k as int)
                + Seq::<int>::empty());
        }
        i = i + 1;
    }
    assert(views(episode_channels@).take(episode_channels@.len() as int) =~= views(
        episode_channels@,
    ));
    r
}


/// The podcast queries: the channels are listed by title, case ignored, and
/// restricted to the given upstream channel id (quoted) when one is given;
/// the newest episodes come newest first (unknown dates last), 20 of them
/// unless the client asks for another count.
pub proof fn law_podcast_queries(id: Option<String>, count: Option<i32>)
    ensures
        ends_with_part(channels_sql_spec(id), " ORDER BY pc.title COLLATE NOCASE"@),
        id is Some ==> holds_part(
            channels_sql_spec(id),
            "pc.upstream_id = '"@ + sql_quote_spec(id->0@) + "'"@,
        ),
        id is None ==> channels_sql_spec(id) == CHANNELS_SQL_HEAD@
            + " ORDER BY pc.title COLLATE NOCASE"@,
        ends_with_part(
            newest_episodes_sql_spec(count),
            "ORDER BY pe.publish_date DESC NULLS LAST LIMIT "@ + int_decimal(
                match count {
                    Some(n) => n as int,
                    None => 20,
                },
            ),
        ),
        count is None ==> ends_with_part(
            newest_episodes_sql_spec(count),
            "LIMIT "@ + int_decimal(20),
        ),
{
    reveal_strlit(" ORDER BY pc.title COLLATE NOCASE");
    reveal_strlit("AND pc.upstream_id = '");
    reveal_strlit("pc.upstream_id = '");
    reveal_strlit("ORDER BY pe.publish_date DESC NULLS LAST LIMIT ");
    reveal_strlit("LIMIT ");
    match id {
        Some(i) => {
            let full = "AND pc.upstream_id = '"@;
            assert(full =~= full.take(4) + "pc.upstream_id = '"@);
            assert(channels_sql_spec(id) =~= (CHANNELS_SQL_HEAD@ + full.take(4)) + (
            "pc.upstream_id = '"@ + sql_quote_spec(i@) + "'"@) + CHANNELS_SQL_TAIL@);
            assert(channels_sql_spec(id) =~= (CHANNELS_SQL_HEAD@ + ("AND pc.upstream_id = '"@
                + sql_quote_spec(i@) + "'"@)) + " ORDER BY pc.title COLLATE NOCASE"@);
        },
        None => {
            assert(channels_sql_spec(id) =~= CHANNELS_SQL_HEAD@ + " ORDER BY pc.title COLLATE NOCASE"@);
        },
    }
    let n = match count {
        Some(c) => c as int,
        None => 20,
    };
    let lead = "ORDER BY pe.publish_date DESC NULLS LAST LIMIT "@;
    assert(newest_episodes_sql_spec(count) =~= EPISODES_SQL@ + (lead + int_decimal(n)));
    assert(lead =~= lead.take(lead.len() - 6) + "LIMIT "@);
    assert(newest_episodes_sql_spec(count) =~= (EPISODES_SQL@ + lead.take(lead.len() - 6)) + (
    "LIMIT "@ + int_decimal(n)));
}

} // verus!
