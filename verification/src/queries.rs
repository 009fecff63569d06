//! The SQL text of the canonical-entity queries: one row per aggregation key,
//! from the best-priority server, and the lookups of one entity by its nexus
//! ID.

use vstd::prelude::*;
use crate::nexus::{HintModel, IdTemplate, ServerHint, hint_model, parse_entity_id, parse_entity_id_model};
use crate::sql::{sql_quote_spec, with_number, with_quoted};
use crate::text::{holds_part, int_decimal};

verus! {

/// The canonical artists: for each aggregation key, the one row of the server
/// with the best (lowest) priority; among servers of equal priority the one
/// with the lowest id wins, and within a server the row with the lowest id.
pub const CANONICAL_ARTIST_SQL: &'static str = "
    SELECT
        ar.id       AS db_id,
        ar.server_id,
        s.name      AS server_name,
        ar.upstream_id,
        ar.aggregation_key,
        ar.name,
        ar.metadata_json
    FROM artists ar
    JOIN upstream_servers s ON ar.server_id = s.id
    WHERE ar.id = (
        SELECT ar2.id
        FROM artists ar2
        JOIN upstream_servers s2 ON ar2.server_id = s2.id
        WHERE ar2.aggregation_key = ar.aggregation_key
        ORDER BY s2.priority ASC, s2.id ASC, ar2.id ASC
        LIMIT 1
    )
";

/// The canonical albums: one row per aggregation key, chosen as the
/// canonical artists are.
pub const CANONICAL_ALBUM_SQL: &'static str = "
    SELECT
        al.id       AS db_id,
        al.server_id,
        s.name      AS server_name,
        al.upstream_id,
        al.aggregation_key,
        al.name,
        NULL        AS artist_upstream_id_opt,
        al.metadata_json
    FROM albums al
    JOIN upstream_servers s ON al.server_id = s.id
    WHERE al.id = (
        SELECT al2.id
        FROM albums al2
        JOIN upstream_servers s2 ON al2.server_id = s2.id
        WHERE al2.aggregation_key = al.aggregation_key
        ORDER BY s2.priority ASC, s2.id ASC, al2.id ASC
        LIMIT 1
    )
";

/// The condition that a server hint adds to a lookup: the server name, or the
/// server DB id in `column`, or nothing without a hint.
pub open spec fn hint_filter_spec(hint: Option<HintModel>, column: Seq<char>) -> Seq<char> {
    match hint {
        None => Seq::empty(),
        Some(HintModel::Name(n)) => " AND s.name = '"@ + sql_quote_spec(n) + "'"@,
        Some(HintModel::DbId(i)) => column + int_decimal(i as int),
    }
}

fn hint_filter(hint: &Option<ServerHint>, column: &str) -> (r: String)
    ensures
        r@ == hint_filter_spec(hint_model(*hint), column@),
{
    match hint {
        None => String::new(),
        Some(ServerHint::Name(n)) => with_quoted(" AND s.name = '", n.as_str(), "'"),
        Some(ServerHint::DbId(i)) => with_number(column, *i as i64),
    }
}

/// The lookup of one entity: `head`, the quoted upstream ID, the server
/// condition of the hint, and `tail`.
pub open spec fn lookup_sql_spec(
    head: Seq<char>,
    template: IdTemplate,
    nexus_id: Seq<char>,
    column: Seq<char>,
    tail: Seq<char>,
) -> Seq<char> {
    let (hint, upstream) = parse_entity_id_model(template, nexus_id);
    head + sql_quote_spec(upstream) + "'"@ + hint_filter_spec(hint, column) + tail
}

fn lookup_sql(head: &str, template: IdTemplate, nexus_id: &str, column: &str, tail: &str) -> (r:
    String)
    ensures
        r@ == lookup_sql_spec(head@, template, nexus_id@, column@, tail@),
{
    let parsed = parse_entity_id(template, nexus_id);
    let mut r = with_quoted(head, parsed.upstream_id.as_str(), "'");
    let f = hint_filter(&parsed.server_hint, column);
    r.append(f.as_str());
    r.append(tail);
    r
}

pub open spec fn artist_lookup_head() -> Seq<char> {
    CANONICAL_ARTIST_SQL@ + " AND ar.upstream_id = '"@
}

/// The SQL text finding the canonical artist of a nexus ID.
pub fn artist_by_nexus_id_sql(template: IdTemplate, nexus_id: &str) -> (r: String)
    ensures
        r@ == lookup_sql_spec(
            artist_lookup_head(),
            template,
            nexus_id@,
            " AND ar.server_id = "@,
            " LIMIT 1"@,
        ),
{
    let mut head = String::from_str(CANONICAL_ARTIST_SQL);
    head.append(" AND ar.upstream_id = '");
    lookup_sql(head.as_str(), template, nexus_id, " AND ar.server_id = ", " LIMIT 1")
}

pub open spec fn album_lookup_head() -> Seq<char> {
    CANONICAL_ALBUM_SQL@ + " AND al.upstream_id = '"@
}

/// The SQL text finding the canonical album of a nexus ID.
pub fn album_by_nexus_id_sql(template: IdTemplate, nexus_id: &str) -> (r: String)
    ensures
        r@ == lookup_sql_spec(
            album_lookup_head(),
            template,
            nexus_id@,
            " AND al.server_id = "@,
            " LIMIT 1"@,
        ),
{
    let mut head = String::from_str(CANONICAL_ALBUM_SQL);
    head.append(" AND al.upstream_id = '");
    lookup_sql(head.as_str(), template, nexus_id, " AND al.server_id = ", " LIMIT 1")
}

pub const SONG_LOOKUP_HEAD: &'static str = "
        SELECT
            so.id       AS db_id,
            so.server_id,
            s.name      AS server_name,
            so.upstream_id,
            so.title,
            so.metadata_json
        FROM songs so
        JOIN upstream_servers s ON so.server_id = s.id
        WHERE so.upstream_id = '";

pub const SONG_LOOKUP_TAIL: &'static str = "
        LIMIT 1
        ";

/// The SQL text finding the song of a nexus ID.
pub fn song_by_nexus_id_sql(template: IdTemplate, nexus_id: &str) -> (r: String)
    ensures
        r@ == lookup_sql_spec(
            SONG_LOOKUP_HEAD@,
            template,
            nexus_id@,
            " AND so.server_id = "@,
            SONG_LOOKUP_TAIL@,
        ),
{
    lookup_sql(SONG_LOOKUP_HEAD, template, nexus_id, " AND so.server_id = ", SONG_LOOKUP_TAIL)
}

/// The SQL text of all canonical artists by name, restricted to one server
/// when a music folder is given.
pub open spec fn canonical_artists_sql_spec(server_db_id: Option<i32>) -> Seq<char> {
    CANONICAL_ARTIST_SQL@ + (match server_db_id {
        Some(sid) => " AND ar.server_id = "@ + int_decimal(sid as int),
        None => Seq::empty(),
    }) + " ORDER BY ar.name COLLATE NOCASE"@
}

pub fn canonical_artists_sql(server_db_id: Option<i32>) -> (r: String)
    ensures
        r@ == canonical_artists_sql_spec(server_db_id),
{
    let mut r = String::from_str(CANONICAL_ARTIST_SQL);
    match server_db_id {
        Some(sid) => {
            let f = with_number(" AND ar.server_id = ", sid as i64);
            r.append(f.as_str());
        },
        None => {},
    }
    r.append(" ORDER BY ar.name COLLATE NOCASE");
    r
}

pub const ALBUMS_FOR_ARTIST_MIDDLE: &'static str = "
        AND al.id IN (
            SELECT al3.id FROM albums al3
            JOIN artists ar3 ON al3.artist_id = ar3.id
            WHERE ar3.aggregation_key = '";

pub const ALBUMS_FOR_ARTIST_TAIL: &'static str = "'
        )
        ORDER BY al.year NULLS LAST, al.name COLLATE NOCASE";

/// The SQL text of the canonical albums of an artist aggregation key, by year
/// then name.
pub open spec fn albums_for_artist_sql_spec(artist_agg_key: Seq<char>) -> Seq<char> {
    CANONICAL_ALBUM_SQL@ + ALBUMS_FOR_ARTIST_MIDDLE@ + sql_quote_spec(artist_agg_key)
        + ALBUMS_FOR_ARTIST_TAIL@
}

pub fn albums_for_artist_sql(artist_agg_key: &str) -> (r: String)
    ensures
        r@ == albums_for_artist_sql_spec(artist_agg_key@),
{
    let mut r = String::from_str(CANONICAL_ALBUM_SQL);
    let q = with_quoted(ALBUMS_FOR_ARTIST_MIDDLE, artist_agg_key, ALBUMS_FOR_ARTIST_TAIL);
    r.append(q.as_str());
    r
}

pub const SONGS_FOR_ALBUM_HEAD: &'static str = "
        SELECT
            so.id       AS db_id,
            so.server_id,
            s.name      AS server_name,
            so.upstream_id,
            so.title,
            so.metadata_json
        FROM songs so
        JOIN upstream_servers s ON so.server_id = s.id
        WHERE so.album_id = ";

pub const SONGS_FOR_ALBUM_TAIL: &'static str = "
        ORDER BY
            CAST(json_extract(so.metadata_json, '$.discNumber') AS INTEGER) NULLS LAST,
            CAST(json_extract(so.metadata_json, '$.track') AS INTEGER) NULLS LAST,
            so.title COLLATE NOCASE
        ";

/// The SQL text of the songs of an album, by disc, track, then title.
pub open spec fn songs_for_album_sql_spec(album_db_id: i32) -> Seq<char> {
    SONGS_FOR_ALBUM_HEAD@ + int_decimal(album_db_id as int) + SONGS_FOR_ALBUM_TAIL@
}

pub fn songs_for_album_sql(album_db_id: i32) -> (r: String)
    ensures
        r@ == songs_for_album_sql_spec(album_db_id),
{
    let mut r = with_number(SONGS_FOR_ALBUM_HEAD, album_db_id as i64);
    r.append(SONGS_FOR_ALBUM_TAIL);
    r
}

// ── Scan upserts ──────────────────────────────────────────────────────────────

/// Stores an artist of a scan, keyed by server and upstream ID: a new row, or
/// the new key, name and metadata of the row that is already there.
pub const UPSERT_ARTIST_SQL: &'static str = "INSERT INTO artists (server_id, upstream_id, aggregation_key, name, metadata_json) VALUES (?, ?, ?, ?, ?) ON CONFLICT (server_id, upstream_id) DO UPDATE SET aggregation_key = excluded.aggregation_key, name = excluded.name, metadata_json = excluded.metadata_json";

/// Stores an album of a scan, keyed by server and upstream ID.
pub const UPSERT_ALBUM_SQL: &'static str = "INSERT INTO albums (server_id, upstream_id, aggregation_key, artist_id, name, year, genre, created_at, play_count, played_at, user_rating, metadata_json) VALUES (?, ?, ?, ?, ?, ?, ?, ?, ?, ?, ?, ?) ON CONFLICT (server_id, upstream_id) DO UPDATE SET aggregation_key = excluded.aggregation_key, artist_id = excluded.artist_id, name = excluded.name, year = excluded.year, genre = excluded.genre, created_at = excluded.created_at, play_count = excluded.play_count, played_at = excluded.played_at, user_rating = excluded.user_rating, metadata_json = excluded.metadata_json";

/// Stores a song of a scan, keyed by server and upstream ID.
pub const UPSERT_SONG_SQL: &'static str = "INSERT INTO songs (server_id, upstream_id, album_id, artist_id, title, year, genre, metadata_json) VALUES (?, ?, ?, ?, ?, ?, ?, ?) ON CONFLICT (server_id, upstream_id) DO UPDATE SET album_id = excluded.album_id, artist_id = excluded.artist_id, title = excluded.title, year = excluded.year, genre = excluded.genre, metadata_json = excluded.metadata_json";

/// Stores a podcast channel of a scan, keyed by server and upstream ID.
pub const UPSERT_PODCAST_CHANNEL_SQL: &'static str = "INSERT INTO podcast_channels (server_id, upstream_id, title, metadata_json) VALUES (?, ?, ?, ?) ON CONFLICT (server_id, upstream_id) DO UPDATE SET title = excluded.title, metadata_json = excluded.metadata_json";

/// Stores a podcast episode of a scan, keyed by server and upstream ID.
pub const UPSERT_PODCAST_EPISODE_SQL: &'static str = "INSERT INTO podcast_episodes (server_id, upstream_id, channel_id, title, publish_date, metadata_json) VALUES (?, ?, ?, ?, ?, ?) ON CONFLICT (server_id, upstream_id) DO UPDATE SET channel_id = excluded.channel_id, title = excluded.title, publish_date = excluded.publish_date, metadata_json = excluded.metadata_json";

/// Stores an internet radio station of a scan, keyed by server and upstream ID.
pub const UPSERT_RADIO_STATION_SQL: &'static str = "INSERT INTO internet_radio_stations (server_id, upstream_id, name, stream_url, metadata_json) VALUES (?, ?, ?, ?, ?) ON CONFLICT (server_id, upstream_id) DO UPDATE SET name = excluded.name, stream_url = excluded.stream_url, metadata_json = excluded.metadata_json";


/// `text` ends with `part`.
pub open spec fn ends_with_part(text: Seq<char>, part: Seq<char>) -> bool {
    exists|pre: Seq<char>| text == pre + part
}

/// What the library queries select and in which order:
/// - the canonical artists and albums take, for each aggregation key, the one
///   row of the best-priority server (ties to the lower server id, then the
///   lower row id);
/// - all canonical artists are listed by name, case ignored, restricted to
///   one server when a music folder is given;
/// - the albums of an artist are those of its aggregation key, quoted, by
///   year (unknown years last) then name;
/// - the songs of an album are those of its row id, by disc, then track,
///   then title.
pub proof fn law_library_queries(
    server_db_id: Option<i32>,
    artist_agg_key: Seq<char>,
    album_db_id: i32,
)
    ensures
        holds_part(CANONICAL_ARTIST_SQL@, "WHERE ar2.aggregation_key = ar.aggregation_key"@),
        holds_part(CANONICAL_ARTIST_SQL@, "ORDER BY s2.priority ASC, s2.id ASC, ar2.id ASC"@),
        holds_part(CANONICAL_ARTIST_SQL@, "LIMIT 1"@),
        holds_part(CANONICAL_ALBUM_SQL@, "WHERE al2.aggregation_key = al.aggregation_key"@),
        holds_part(CANONICAL_ALBUM_SQL@, "ORDER BY s2.priority ASC, s2.id ASC, al2.id ASC"@),
        holds_part(CANONICAL_ALBUM_SQL@, "LIMIT 1"@),
        ends_with_part(canonical_artists_sql_spec(server_db_id), " ORDER BY ar.name COLLATE NOCASE"@),
        server_db_id is Some ==> holds_part(
            canonical_artists_sql_spec(server_db_id),
            " AND ar.server_id = "@ + int_decimal(server_db_id->0 as int),
        ),
        server_db_id is None ==> canonical_artists_sql_spec(server_db_id) == CANONICAL_ARTIST_SQL@
            + " ORDER BY ar.name COLLATE NOCASE"@,
        holds_part(
            albums_for_artist_sql_spec(artist_agg_key),
            "ar3.aggregation_key = '"@ + sql_quote_spec(artist_agg_key) + "'"@,
        ),
        ends_with_part(
            albums_for_artist_sql_spec(artist_agg_key),
            "ORDER BY al.year NULLS LAST, al.name COLLATE NOCASE"@,
        ),
        holds_part(songs_for_album_sql_spec(album_db_id), "so.album_id = "@ + int_decimal(album_db_id as int)),
        holds_part(
            songs_for_album_sql_spec(album_db_id),
            "CAST(json_extract(so.metadata_json, '$.discNumber') AS INTEGER) NULLS LAST,
            CAST(json_extract(so.metadata_json, '$.track') AS INTEGER) NULLS LAST,
            so.title COLLATE NOCASE"@,
        ),
{
    reveal_strlit("'");
    reveal_strlit("LIMIT 1");
    reveal_strlit("so.album_id = ");
    reveal_strlit(" AND ar.server_id = ");
    reveal_strlit("ar3.aggregation_key = '");
    reveal_strlit(" ORDER BY ar.name COLLATE NOCASE");
    reveal_strlit("WHERE al2.aggregation_key = al.aggregation_key");
    reveal_strlit("WHERE ar2.aggregation_key = ar.aggregation_key");
    reveal_strlit("ORDER BY s2.priority ASC, s2.id ASC, al2.id ASC");
    reveal_strlit("ORDER BY s2.priority ASC, s2.id ASC, ar2.id ASC");
    reveal_strlit("ORDER BY al.year NULLS LAST, al.name COLLATE NOCASE");
    reveal_strlit("'
        )
        ORDER BY al.year NULLS LAST, al.name COLLATE NOCASE");
    reveal_strlit("
        AND al.id IN (
            SELECT al3.id FROM albums al3
            JOIN artists ar3 ON al3.artist_id = ar3.id
            WHERE ar3.aggregation_key = '");
    reveal_strlit("CAST(json_extract(so.metadata_json, '$.discNumber') AS INTEGER) NULLS LAST,
            CAST(json_extract(so.metadata_json, '$.track') AS INTEGER) NULLS LAST,
            so.title COLLATE NOCASE");
    reveal_strlit("
        ORDER BY
            CAST(json_extract(so.metadata_json, '$.discNumber') AS INTEGER) NULLS LAST,
            CAST(json_extract(so.metadata_json, '$.track') AS INTEGER) NULLS LAST,
            so.title COLLATE NOCASE
        ");
    reveal_strlit("
        SELECT
            so.id       AS db_id,
            so.server_id,
            s.name      AS server_name,
            so.upstream_id,
            so.title,
            so.metadata_json
        FROM songs so
        JOIN upstream_servers s ON so.server_id = s.id
        WHERE so.album_id = ");
    reveal_strlit("
    SELECT
        ar.id       AS db_id,
        ar.server_id,
        s.name      AS server_name,
        ar.upstream_id,
        ar.aggregation_key,
        ar.name,
        ar.metadata_json
    FROM artists ar
    JOIN upstream_servers s ON ar.server_id = s.id
    WHERE ar.id = (
        SELECT ar2.id
        FROM artists ar2
        JOIN upstream_servers s2 ON ar2.server_id = s2.id
        WHERE ar2.aggregation_key = ar.aggregation_key
        ORDER BY s2.priority ASC, s2.id ASC, ar2.id ASC
        LIMIT 1
    )
");
    reveal_strlit("
    SELECT
        al.id       AS db_id,
        al.server_id,
        s.name      AS server_name,
        al.upstream_id,
        al.aggregation_key,
        al.name,
        NULL        AS artist_upstream_id_opt,
        al.metadata_json
    FROM albums al
    JOIN upstream_servers s ON al.server_id = s.id
    WHERE al.id = (
        SELECT al2.id
        FROM albums al2
        JOIN upstream_servers s2 ON al2.server_id = s2.id
        WHERE al2.aggregation_key = al.aggregation_key
        ORDER BY s2.priority ASC, s2.id ASC, al2.id ASC
        LIMIT 1
    )
");
    assert(CANONICAL_ARTIST_SQL@ =~= CANONICAL_ARTIST_SQL@.take(398) + "WHERE ar2.aggregation_key = ar.aggregation_key"@ + CANONICAL_ARTIST_SQL@.skip(444));
    assert(CANONICAL_ARTIST_SQL@ =~= CANONICAL_ARTIST_SQL@.take(453) + "ORDER BY s2.priority ASC, s2.id ASC, ar2.id ASC"@ + CANONICAL_ARTIST_SQL@.skip(500));
    assert(CANONICAL_ARTIST_SQL@ =~= CANONICAL_ARTIST_SQL@.take(509) + "LIMIT 1"@ + CANONICAL_ARTIST_SQL@.skip(516));
    assert(CANONICAL_ALBUM_SQL@ =~= CANONICAL_ALBUM_SQL@.take(443) + "WHERE al2.aggregation_key = al.aggregation_key"@ + CANONICAL_ALBUM_SQL@.skip(489));
    assert(CANONICAL_ALBUM_SQL@ =~= CANONICAL_ALBUM_SQL@.take(498) + "ORDER BY s2.priority ASC, s2.id ASC, al2.id ASC"@ + CANONICAL_ALBUM_SQL@.skip(545));
    assert(CANONICAL_ALBUM_SQL@ =~= CANONICAL_ALBUM_SQL@.take(554) + "LIMIT 1"@ + CANONICAL_ALBUM_SQL@.skip(561));
    let k = artist_agg_key;
    assert(albums_for_artist_sql_spec(k) =~= (CANONICAL_ALBUM_SQL@ + ALBUMS_FOR_ARTIST_MIDDLE@.take(139))
        + ("ar3.aggregation_key = '"@ + sql_quote_spec(k) + "'"@) + ALBUMS_FOR_ARTIST_TAIL@.skip(1));
    assert(albums_for_artist_sql_spec(k) =~= (CANONICAL_ALBUM_SQL@ + ALBUMS_FOR_ARTIST_MIDDLE@
        + sql_quote_spec(k) + ALBUMS_FOR_ARTIST_TAIL@.take(20)) + "ORDER BY al.year NULLS LAST, al.name COLLATE NOCASE"@);
    assert(songs_for_album_sql_spec(album_db_id) =~= SONGS_FOR_ALBUM_HEAD@.take(286)
        + ("so.album_id = "@ + int_decimal(album_db_id as int)) + SONGS_FOR_ALBUM_TAIL@);
    assert(SONGS_FOR_ALBUM_TAIL@ =~= SONGS_FOR_ALBUM_TAIL@.take(30) + "CAST(json_extract(so.metadata_json, '$.discNumber') AS INTEGER) NULLS LAST,
            CAST(json_extract(so.metadata_json, '$.track') AS INTEGER) NULLS LAST,
            so.title COLLATE NOCASE"@ + SONGS_FOR_ALBUM_TAIL@.skip(224));
    assert(songs_for_album_sql_spec(album_db_id) =~= (SONGS_FOR_ALBUM_HEAD@ + int_decimal(album_db_id as int)
        + SONGS_FOR_ALBUM_TAIL@.take(30)) + "CAST(json_extract(so.metadata_json, '$.discNumber') AS INTEGER) NULLS LAST,
            CAST(json_extract(so.metadata_json, '$.track') AS INTEGER) NULLS LAST,
            so.title COLLATE NOCASE"@ + SONGS_FOR_ALBUM_TAIL@.skip(224));
    match server_db_id {
        Some(sid) => {
            assert(canonical_artists_sql_spec(server_db_id) =~= CANONICAL_ARTIST_SQL@
                + (" AND ar.server_id = "@ + int_decimal(sid as int)) + " ORDER BY ar.name COLLATE NOCASE"@);
        },
        None => {
            assert(canonical_artists_sql_spec(server_db_id) =~= CANONICAL_ARTIST_SQL@ + " ORDER BY ar.name COLLATE NOCASE"@);
        },
    }
}

} // verus!
