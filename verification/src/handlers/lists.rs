//! Album and song list endpoints.

use vstd::prelude::*;
use crate::queries::ends_with_part;
use crate::text::holds_part;
use crate::sql::{and_filters, and_filters_spec, sql_quote_spec, views, with_number, with_quoted};
use crate::text::{
    chars_eq_str, chars_of, decimal_i64, int_decimal, parse_i32, parse_i32_spec, string_of,
};

verus! {

pub struct GetAlbumListParams {
    pub list_type: String,
    pub size: Option<i32>,
    pub offset: Option<i32>,
    pub from_year: Option<i32>,
    pub to_year: Option<i32>,
    pub genre: Option<String>,
    pub music_folder_id: Option<String>,
}

pub struct GetRandomSongsParams {
    pub size: Option<i32>,
    pub from_year: Option<i32>,
    pub to_year: Option<i32>,
    pub genre: Option<String>,
    pub music_folder_id: Option<String>,
}

pub struct GetSongsByGenreParams {
    pub genre: String,
    pub count: Option<i32>,
    pub offset: Option<i32>,
    pub music_folder_id: Option<String>,
}

pub struct GetStarredParams {
    pub music_folder_id: Option<String>,
}

pub struct GetSimilarSongsParams {
    pub id: String,
    pub count: Option<i32>,
}

pub struct GetTopSongsParams {
    pub id: String,
    pub count: Option<i32>,
}

// ── Paging ────────────────────────────────────────────────────────────────────

/// `v` clamped into `lo..=hi`.
pub open spec fn clamp_spec(v: int, lo: int, hi: int) -> int {
    if v < lo {
        lo
    } else if v > hi {
        hi
    } else {
        v
    }
}

/// The page size of a list request: 10 by default, and always within 1..=500.
pub open spec fn page_size_spec(size: Option<i32>) -> int {
    clamp_spec(
        match size {
            Some(n) => n as int,
            None => 10,
        },
        1,
        500,
    )
}

/// The page offset of a list request: 0 by default.
pub open spec fn page_offset_spec(offset: Option<i32>) -> int {
    match offset {
        Some(n) => n as int,
        None => 0,
    }
}

pub fn page_size(size: Option<i32>) -> (r: i64)
    ensures
        r == page_size_spec(size),
{
    let n: i32 = match size {
        Some(n) => n,
        None => 10,
    };
    if n < 1 {
        1
    } else if n > 500 {
        500
    } else {
        n as i64
    }
}

pub fn page_offset(offset: Option<i32>) -> (r: i64)
    ensures
        r == page_offset_spec(offset),
{
    match offset {
        Some(n) => n as i64,
        None => 0,
    }
}

/// A page is never empty and never larger than 500 entries.
pub proof fn law_page_size_bounds(size: Option<i32>)
    ensures
        1 <= page_size_spec(size) <= 500,
        size is None ==> page_size_spec(size) == 10,
{
}

// ── getAlbumList / getAlbumList2 ──────────────────────────────────────────────

/// The list types of `getAlbumList`; every unknown type lists at random.
#[derive(Debug, Clone, Copy, PartialEq, Eq, Structural)]
pub enum AlbumListOrder {
    Newest,
    AlphabeticalByName,
    AlphabeticalByArtist,
    ByYear,
    ByGenre,
    Frequent,
    Recent,
    Starred,
    Random,
}

pub open spec fn album_list_order_of(t: Seq<char>) -> AlbumListOrder {
    if t == "newest"@ {
        AlbumListOrder::Newest
    } else if t == "alphabeticalByName"@ {
        AlbumListOrder::AlphabeticalByName
    } else if t == "alphabeticalByArtist"@ {
        AlbumListOrder::AlphabeticalByArtist
    } else if t == "byYear"@ {
        AlbumListOrder::ByYear
    } else if t == "byGenre"@ {
        AlbumListOrder::ByGenre
    } else if t == "frequent"@ {
        AlbumListOrder::Frequent
    } else if t == "recent"@ {
        AlbumListOrder::Recent
    } else if t == "starred"@ {
        AlbumListOrder::Starred
    } else {
        AlbumListOrder::Random
    }
}

/// The list type named by the `type` parameter.
pub fn album_list_order(list_type: &str) -> (r: AlbumListOrder)
    ensures
        r == album_list_order_of(list_type@),
{
    let v = chars_of(list_type);
    if chars_eq_str(&v, "newest") {
        AlbumListOrder::Newest
    } else if chars_eq_str(&v, "alphabeticalByName") {
        AlbumListOrder::AlphabeticalByName
    } else if chars_eq_str(&v, "alphabeticalByArtist") {
        AlbumListOrder::AlphabeticalByArtist
    } else if chars_eq_str(&v, "byYear") {
        AlbumListOrder::ByYear
    } else if chars_eq_str(&v, "byGenre") {
        AlbumListOrder::ByGenre
    } else if chars_eq_str(&v, "frequent") {
        AlbumListOrder::Frequent
    } else if chars_eq_str(&v, "recent") {
        AlbumListOrder::Recent
    } else if chars_eq_str(&v, "starred") {
        AlbumListOrder::Starred
    } else {
        AlbumListOrder::Random
    }
}

/// The `ORDER BY` clause of each list type (starred albums are not stored,
/// so that list is empty and has none).
pub open spec fn order_clause_spec(o: AlbumListOrder) -> Seq<char> {
    match o {
        AlbumListOrder::Newest => "al.created_at DESC NULLS LAST"@,
        AlbumListOrder::AlphabeticalByName => "al.name COLLATE NOCASE ASC"@,
        AlbumListOrder::AlphabeticalByArtist => "ar_name.name COLLATE NOCASE ASC, al.name COLLATE NOCASE ASC"@,
        AlbumListOrder::ByYear => "al.year ASC NULLS LAST, al.name COLLATE NOCASE ASC"@,
        AlbumListOrder::ByGenre => "al.genre COLLATE NOCASE ASC, al.name COLLATE NOCASE ASC"@,
        AlbumListOrder::Frequent => "al.play_count DESC NULLS LAST"@,
        AlbumListOrder::Recent => "al.played_at DESC NULLS LAST"@,
        AlbumListOrder::Starred => Seq::empty(),
        AlbumListOrder::Random => "RANDOM()"@,
    }
}

pub fn order_clause(o: AlbumListOrder) -> (r: String)
    ensures
        r@ == order_clause_spec(o),
{
    match o {
        AlbumListOrder::Newest => String::from_str("al.created_at DESC NULLS LAST"),
        AlbumListOrder::AlphabeticalByName => String::from_str("al.name COLLATE NOCASE ASC"),
        AlbumListOrder::AlphabeticalByArtist => String::from_str(
            "ar_name.name COLLATE NOCASE ASC, al.name COLLATE NOCASE ASC",
        ),
        AlbumListOrder::ByYear => String::from_str(
            "al.year ASC NULLS LAST, al.name COLLATE NOCASE ASC",
        ),
        AlbumListOrder::ByGenre => String::from_str(
            "al.genre COLLATE NOCASE ASC, al.name COLLATE NOCASE ASC",
        ),
        AlbumListOrder::Frequent => String::from_str("al.play_count DESC NULLS LAST"),
        AlbumListOrder::Recent => String::from_str("al.played_at DESC NULLS LAST"),
        AlbumListOrder::Starred => String::new(),
        AlbumListOrder::Random => String::from_str("RANDOM()"),
    }
}

/// The order of each album list, by the name of its type: newest first by
/// creation; by name; by artist name, then name; by year (unknown years
/// last), then name; by genre, then name; most played first; most recently
/// played first; and at random for "random" and every unknown type.
pub proof fn law_album_list_orders(unknown: Seq<char>)
    requires
        unknown != "newest"@,
        unknown != "alphabeticalByName"@,
        unknown != "alphabeticalByArtist"@,
        unknown != "byYear"@,
        unknown != "byGenre"@,
        unknown != "frequent"@,
        unknown != "recent"@,
        unknown != "starred"@,
    ensures
        order_clause_spec(album_list_order_of("newest"@)) == "al.created_at DESC NULLS LAST"@,
        order_clause_spec(album_list_order_of("alphabeticalByName"@)) == "al.name COLLATE NOCASE ASC"@,
        order_clause_spec(album_list_order_of("alphabeticalByArtist"@))
            == "ar_name.name COLLATE NOCASE ASC, al.name COLLATE NOCASE ASC"@,
        order_clause_spec(album_list_order_of("byYear"@))
            == "al.year ASC NULLS LAST, al.name COLLATE NOCASE ASC"@,
        order_clause_spec(album_list_order_of("byGenre"@))
            == "al.genre COLLATE NOCASE ASC, al.name COLLATE NOCASE ASC"@,
        order_clause_spec(album_list_order_of("frequent"@)) == "al.play_count DESC NULLS LAST"@,
        order_clause_spec(album_list_order_of("recent"@)) == "al.played_at DESC NULLS LAST"@,
        order_clause_spec(album_list_order_of("random"@)) == "RANDOM()"@,
        order_clause_spec(album_list_order_of(unknown)) == "RANDOM()"@,
{
    reveal_strlit("newest");
    reveal_strlit("alphabeticalByName");
    reveal_strlit("alphabeticalByArtist");
    reveal_strlit("byYear");
    reveal_strlit("byGenre");
    reveal_strlit("frequent");
    reveal_strlit("recent");
    reveal_strlit("starred");
    reveal_strlit("random");
    assert("alphabeticalByName"@.len() != "newest"@.len());
    assert("alphabeticalByArtist"@.len() != "newest"@.len());
    assert("alphabeticalByArtist"@.len() != "alphabeticalByName"@.len());
    assert("byYear"@[0] != "newest"@[0]);
    assert("byYear"@.len() != "alphabeticalByName"@.len());
    assert("byYear"@.len() != "alphabeticalByArtist"@.len());
    assert("byGenre"@.len() != "newest"@.len());
    assert("byGenre"@.len() != "alphabeticalByName"@.len());
    assert("byGenre"@.len() != "alphabeticalByArtist"@.len());
    assert("byGenre"@.len() != "byYear"@.len());
    assert("frequent"@.len() != "newest"@.len());
    assert("frequent"@.len() != "alphabeticalByName"@.len());
    assert("frequent"@.len() != "alphabeticalByArtist"@.len());
    assert("frequent"@.len() != "byYear"@.len());
    assert("frequent"@.len() != "byGenre"@.len());
    assert("recent"@[0] != "newest"@[0]);
    assert("recent"@.len() != "alphabeticalByName"@.len());
    assert("recent"@.len() != "alphabeticalByArtist"@.len());
    assert("recent"@[0] != "byYear"@[0]);
    assert("recent"@.len() != "byGenre"@.len());
    assert("recent"@.len() != "frequent"@.len());
    assert("starred"@.len() != "newest"@.len());
    assert("starred"@.len() != "alphabeticalByName"@.len());
    assert("starred"@.len() != "alphabeticalByArtist"@.len());
    assert("starred"@.len() != "byYear"@.len());
    assert("starred"@[0] != "byGenre"@[0]);
    assert("starred"@.len() != "frequent"@.len());
    assert("starred"@.len() != "recent"@.len());
    assert("random"@[0] != "newest"@[0]);
    assert("random"@.len() != "alphabeticalByName"@.len());
    assert("random"@.len() != "alphabeticalByArtist"@.len());
    assert("random"@[0] != "byYear"@[0]);
    assert("random"@.len() != "byGenre"@.len());
    assert("random"@.len() != "frequent"@.len());
    assert("random"@[1] != "recent"@[1]);
    assert("random"@.len() != "starred"@.len());
}

/// One filter `prefix n` when `v` holds `n`, none otherwise.
pub open spec fn number_filter(prefix: Seq<char>, v: Option<i32>) -> Seq<Seq<char>> {
    match v {
        Some(n) => seq![prefix + int_decimal(n as int)],
        None => Seq::empty(),
    }
}

/// One server filter when the music folder id is given and parses as an
/// `i32`, none otherwise.
pub open spec fn folder_filter(prefix: Seq<char>, folder: Option<String>) -> Seq<Seq<char>> {
    match folder {
        Some(f) => match parse_i32_spec(f@) {
            Some(sid) => seq![prefix + int_decimal(sid as int)],
            None => Seq::empty(),
        },
        None => Seq::empty(),
    }
}

/// The extra filters of an album list: the year range for `byYear`, the genre
/// for `byGenre`, and the server for a numeric music folder id.
pub open spec fn album_filters_spec(p: GetAlbumListParams) -> Seq<Seq<char>> {
    let o = album_list_order_of(p.list_type@);
    (if o == AlbumListOrder::ByYear {
        number_filter("al.year >= "@, p.from_year) + number_filter("al.year <= "@, p.to_year)
    } else {
        Seq::empty()
    }) + (if o == AlbumListOrder::ByGenre && p.genre is Some {
        seq!["al.genre = '"@ + sql_quote_spec(p.genre->0@) + "' COLLATE NOCASE"@]
    } else {
        Seq::empty()
    }) + folder_filter("al.server_id = "@, p.music_folder_id)
}

/// The filters of an album list: a `byYear` list keeps the albums from
/// `fromYear` on and up to `toYear` (each bound when given, in that order); a
/// `byGenre` list keeps the albums of the given genre, its name quoted and
/// compared without regard to case; no other list type filters by year or
/// genre; and a numeric music folder keeps the albums of that server, as the
/// last filter.
pub proof fn law_album_list_filters(p: GetAlbumListParams, from: i32, to: i32, g: Seq<char>)
    ensures
        album_list_order_of(p.list_type@) == AlbumListOrder::ByYear && p.from_year == Some(from)
            && p.to_year == Some(to) && p.music_folder_id is None ==> album_filters_spec(p)
            == seq!["al.year >= "@ + int_decimal(from as int), "al.year <= "@ + int_decimal(to as int)],
        album_list_order_of(p.list_type@) == AlbumListOrder::ByGenre && p.genre is Some
            && p.genre->0@ == g && p.music_folder_id is None ==> album_filters_spec(p) == seq![
            "al.genre = '"@ + sql_quote_spec(g) + "' COLLATE NOCASE"@,
        ],
        album_list_order_of(p.list_type@) != AlbumListOrder::ByYear && album_list_order_of(
            p.list_type@,
        ) != AlbumListOrder::ByGenre ==> album_filters_spec(p) == folder_filter(
            "al.server_id = "@,
            p.music_folder_id,
        ),
        p.music_folder_id is Some && parse_i32_spec(p.music_folder_id->0@) is Some
            ==> album_filters_spec(p).last() == "al.server_id = "@ + int_decimal(
            parse_i32_spec(p.music_folder_id->0@)->0 as int,
        ),
        p.music_folder_id is None ==> album_filters_spec(p).len() <= 2,
{
    let o = album_list_order_of(p.list_type@);
    let years = if o == AlbumListOrder::ByYear {
        number_filter("al.year >= "@, p.from_year) + number_filter("al.year <= "@, p.to_year)
    } else {
        Seq::empty()
    };
    let genre = if o == AlbumListOrder::ByGenre && p.genre is Some {
        seq!["al.genre = '"@ + sql_quote_spec(p.genre->0@) + "' COLLATE NOCASE"@]
    } else {
        Seq::<Seq<char>>::empty()
    };
    let folder = folder_filter("al.server_id = "@, p.music_folder_id);
    assert(album_filters_spec(p) == years + genre + folder);
    if p.music_folder_id is None {
        assert(folder =~= Seq::<Seq<char>>::empty());
        assert(years + genre + folder =~= years + genre);
    }
    if o != AlbumListOrder::ByYear && o != AlbumListOrder::ByGenre {
        assert(years + genre + folder =~= folder);
    }
    if o == AlbumListOrder::ByYear && p.from_year == Some(from) && p.to_year == Some(to) {
        assert(genre =~= Seq::<Seq<char>>::empty());
    }
    if o == AlbumListOrder::ByGenre {
        assert(years =~= Seq::<Seq<char>>::empty());
    }
    if p.music_folder_id is Some && parse_i32_spec(p.music_folder_id->0@) is Some {
        let sid = parse_i32_spec(p.music_folder_id->0@)->0;
        let all = years + genre + folder;
        assert(folder == seq!["al.server_id = "@ + int_decimal(sid as int)]);
        assert(all.last() == folder.last());
        assert(album_filters_spec(p).last() == "al.server_id = "@ + int_decimal(sid as int));
    }
}

/// Appends `prefix n` to `filters` when `v` holds `n`.
fn push_number_filter(filters: &mut Vec<String>, prefix: &str, v: Option<i32>)
    ensures
        views(final(filters)@) == views(old(filters)@) + number_filter(prefix@, v),
{
    match v {
        Some(n) => {
            let f = with_number(prefix, n as i64);
            filters.push(f);
        },
        None => {},
    }
    assert(views(final(filters)@) =~= views(old(filters)@) + number_filter(prefix@, v));
}

/// Appends the server filter for a numeric music folder id.
fn push_folder_filter(filters: &mut Vec<String>, prefix: &str, folder: &Option<String>)
    ensures
        views(final(filters)@) == views(old(filters)@) + folder_filter(prefix@, *folder),
{
    match folder {
        Some(f) => match parse_i32(f.as_str()) {
            Some(sid) => {
                let c = with_number(prefix, sid as i64);
                filters.push(c);
            },
            None => {},
        },
        None => {},
    }
    assert(views(final(filters)@) =~= views(old(filters)@) + folder_filter(prefix@, *folder));
}

/// What an album list query selects: its order, extra filters and page.
pub struct AlbumListQuery {
    pub order: String,
    pub filters: Vec<String>,
    pub limit: i64,
    pub offset: i64,
}

/// The query for `getAlbumList`, or `None` for the starred list, which is
/// always empty.
pub fn album_list_query(params: &GetAlbumListParams) -> (r: Option<AlbumListQuery>)
    ensures
        r is None <==> album_list_order_of(params.list_type@) == AlbumListOrder::Starred,
        r matches Some(q) ==> {
            &&& q.order@ == order_clause_spec(album_list_order_of(params.list_type@))
            &&& views(q.filters@) == album_filters_spec(*params)
            &&& q.limit == page_size_spec(params.size)
            &&& q.offset == page_offset_spec(params.offset)
        },
{
    let order = album_list_order(params.list_type.as_str());
    if order == AlbumListOrder::Starred {
        return None;
    }
    let mut filters: Vec<String> = Vec::new();
    if order == AlbumListOrder::ByYear {
        push_number_filter(&mut filters, "al.year >= ", params.from_year);
        push_number_filter(&mut filters, "al.year <= ", params.to_year);
    }
    let ghost after_year = views(filters@);
    if order == AlbumListOrder::ByGenre {
        match &params.genre {
            Some(g) => {
                let f = with_quoted("al.genre = '", g.as_str(), "' COLLATE NOCASE");
                filters.push(f);
            },
            None => {},
        }
    }
    assert(views(filters@) =~= after_year + (if order == AlbumListOrder::ByGenre
        && params.genre is Some {
        seq!["al.genre = '"@ + sql_quote_spec(params.genre->0@) + "' COLLATE NOCASE"@]
    } else {
        Seq::<Seq<char>>::empty()
    }));
    push_folder_filter(&mut filters, "al.server_id = ", &params.music_folder_id);
    assert(views(filters@) =~= album_filters_spec(*params));
    Some(
        AlbumListQuery {
            order: order_clause(order),
            filters,
            limit: page_size(params.size),
            offset: page_offset(params.offset),
        },
    )
}

/// The canonical album selection: for each aggregation key, the one row of the
/// server with the best (lowest) priority, ties going to the lowest server id
/// and then to the lowest row id.
pub open spec fn canonical_album_sql_spec() -> Seq<char> {
    CANONICAL_ALBUM_SQL@
}

pub const CANONICAL_ALBUM_SQL: &'static str = "
    SELECT
        al.id       AS db_id,
        al.server_id,
        s.name      AS server_name,
        al.upstream_id,
        al.aggregation_key,
        al.name,
        NULL        AS artist_upstream_id_opt,
        al.metadata_json
    FROM albums al
    JOIN upstream_servers s ON al.server_id = s.id
    LEFT JOIN artists ar_name ON al.artist_id = ar_name.id
    WHERE al.id = (
        SELECT al2.id
        FROM albums al2
        JOIN upstream_servers s2 ON al2.server_id = s2.id
        WHERE al2.aggregation_key = al.aggregation_key
        ORDER BY s2.priority ASC, s2.id ASC, al2.id ASC
        LIMIT 1
    )
";

/// The SQL text of an album list query.
pub open spec fn album_list_sql_spec(
    order: Seq<char>,
    filters: Seq<Seq<char>>,
    limit: int,
    offset: int,
) -> Seq<char> {
    canonical_album_sql_spec() + " "@ + and_filters_spec(filters) + "\n           ORDER BY "@
        + order + "\n           LIMIT "@ + int_decimal(limit) + " OFFSET "@ + int_decimal(offset)
}

pub fn album_list_sql(q: &AlbumListQuery) -> (r: String)
    ensures
        r@ == album_list_sql_spec(q.order@, views(q.filters@), q.limit as int, q.offset as int),
{
    let mut r = String::from_str(CANONICAL_ALBUM_SQL);
    r.append(" ");
    let extra = and_filters(&q.filters);
    r.append(extra.as_str());
    r.append("\n           ORDER BY ");
    r.append(q.order.as_str());
    let limit = with_number("\n           LIMIT ", q.limit);
    r.append(limit.as_str());
    let offset = with_number(" OFFSET ", q.offset);
    r.append(offset.as_str());
    r
}

// ── getRandomSongs / getSongsByGenre ─────────────────────────────────────────

/// The song columns every song list selects.
pub const SONG_COLUMNS_SQL: &'static str = "SELECT so.id AS db_id, so.server_id, s.name AS server_name,
               so.upstream_id, so.title, so.metadata_json
           FROM songs so
           JOIN upstream_servers s ON so.server_id = s.id
           WHERE ";

/// The filters of `getRandomSongs`: year range, genre and server.
pub open spec fn random_song_filters_spec(p: GetRandomSongsParams) -> Seq<Seq<char>> {
    number_filter("so.year >= "@, p.from_year) + number_filter("so.year <= "@, p.to_year) + (
    match p.genre {
        Some(g) => seq!["so.genre = '"@ + sql_quote_spec(g@) + "'"@],
        None => Seq::empty(),
    }) + folder_filter("so.server_id = "@, p.music_folder_id)
}

pub fn random_song_filters(params: &GetRandomSongsParams) -> (r: Vec<String>)
    ensures
        views(r@) == random_song_filters_spec(*params),
{
    let mut filters: Vec<String> = Vec::new();
    push_number_filter(&mut filters, "so.year >= ", params.from_year);
    push_number_filter(&mut filters, "so.year <= ", params.to_year);
    let ghost before = views(filters@);
    match &params.genre {
        Some(g) => {
            let f = with_quoted("so.genre = '", g.as_str(), "'");
            filters.push(f);
        },
        None => {},
    }
    assert(views(filters@) =~= before + match params.genre {
        Some(g) => seq!["so.genre = '"@ + sql_quote_spec(g@) + "'"@],
        None => Seq::<Seq<char>>::empty(),
    });
    push_folder_filter(&mut filters, "so.server_id = ", &params.music_folder_id);
    assert(views(filters@) =~= random_song_filters_spec(*params));
    filters
}

/// The SQL text of `getRandomSongs`.
pub open spec fn random_songs_sql_spec(p: GetRandomSongsParams) -> Seq<char> {
    SONG_COLUMNS_SQL@ + "1=1 "@ + and_filters_spec(random_song_filters_spec(p))
        + "\n           ORDER BY RANDOM()\n           LIMIT "@ + int_decimal(page_size_spec(p.size))
}

pub fn random_songs_sql(params: &GetRandomSongsParams) -> (r: String)
    ensures
        r@ == random_songs_sql_spec(*params),
{
    let filters = random_song_filters(params);
    let mut r = String::from_str(SONG_COLUMNS_SQL);
    r.append("1=1 ");
    let extra = and_filters(&filters);
    r.append(extra.as_str());
    let limit = with_number("\n           ORDER BY RANDOM()\n           LIMIT ", page_size(params.size));
    r.append(limit.as_str());
    r
}

/// The SQL text of `getSongsByGenre`.
pub open spec fn songs_by_genre_sql_spec(p: GetSongsByGenreParams) -> Seq<char> {
    SONG_COLUMNS_SQL@ + "so.genre = '"@ + sql_quote_spec(p.genre@)
        + "' COLLATE NOCASE\n           ORDER BY so.title COLLATE NOCASE\n           LIMIT "@
        + int_decimal(page_size_spec(p.count)) + " OFFSET "@ + int_decimal(page_offset_spec(p.offset))
}

pub fn songs_by_genre_sql(params: &GetSongsByGenreParams) -> (r: String)
    ensures
        r@ == songs_by_genre_sql_spec(*params),
{
    let mut r = String::from_str(SONG_COLUMNS_SQL);
    let genre = with_quoted(
        "so.genre = '",
        params.genre.as_str(),
        "' COLLATE NOCASE\n           ORDER BY so.title COLLATE NOCASE\n           LIMIT ",
    );
    r.append(genre.as_str());
    let count = string_of(&decimal_i64(page_size(params.count)));
    r.append(count.as_str());
    let offset = with_number(" OFFSET ", page_offset(params.offset));
    r.append(offset.as_str());
    r
}


/// What the list queries keep and how they page:
/// - an album list orders by its order clause and returns `limit` albums
///   from `offset` on;
/// - random songs keep the songs from `fromYear` on and up to `toYear` (each
///   bound when given, in that order), of the given genre when one is given,
///   in random order, a page of the requested size;
/// - songs by genre keep the songs of that genre, its name quoted and
///   compared without regard to case, by title, a page of the requested size
///   from the requested offset.
pub proof fn law_list_queries(
    order: Seq<char>,
    filters: Seq<Seq<char>>,
    limit: int,
    offset: int,
    p: GetRandomSongsParams,
    g: GetSongsByGenreParams,
    from: i32,
    to: i32,
)
    ensures
        holds_part(album_list_sql_spec(order, filters, limit, offset), "ORDER BY "@ + order),
        ends_with_part(
            album_list_sql_spec(order, filters, limit, offset),
            "LIMIT "@ + int_decimal(limit) + " OFFSET "@ + int_decimal(offset),
        ),
        p.from_year == Some(from) && p.to_year == Some(to) && p.genre is None
            && p.music_folder_id is None ==> random_song_filters_spec(p) == seq![
            "so.year >= "@ + int_decimal(from as int),
            "so.year <= "@ + int_decimal(to as int),
        ],
        p.from_year is None && p.to_year is None && p.genre is Some && p.music_folder_id is None
            ==> random_song_filters_spec(p) == seq![
            "so.genre = '"@ + sql_quote_spec(p.genre->0@) + "'"@,
        ],
        ends_with_part(
            random_songs_sql_spec(p),
            "ORDER BY RANDOM()\n           LIMIT "@ + int_decimal(page_size_spec(p.size)),
        ),
        holds_part(
            songs_by_genre_sql_spec(g),
            "so.genre = '"@ + sql_quote_spec(g.genre@) + "' COLLATE NOCASE"@,
        ),
        holds_part(songs_by_genre_sql_spec(g), "ORDER BY so.title COLLATE NOCASE"@),
        ends_with_part(
            songs_by_genre_sql_spec(g),
            "LIMIT "@ + int_decimal(page_size_spec(g.count)) + " OFFSET "@ + int_decimal(
                page_offset_spec(g.offset),
            ),
        ),
{
    reveal_strlit("ORDER BY ");
    reveal_strlit("\n           ORDER BY ");
    reveal_strlit("LIMIT ");
    reveal_strlit("\n           LIMIT ");
    reveal_strlit("ORDER BY RANDOM()\n           LIMIT ");
    reveal_strlit("\n           ORDER BY RANDOM()\n           LIMIT ");
    reveal_strlit("' COLLATE NOCASE");
    reveal_strlit("ORDER BY so.title COLLATE NOCASE");
    reveal_strlit("' COLLATE NOCASE\n           ORDER BY so.title COLLATE NOCASE\n           LIMIT ");
    let nl_order = "\n           ORDER BY "@;
    let nl_limit = "\n           LIMIT "@;
    let a = album_list_sql_spec(order, filters, limit, offset);
    let front = canonical_album_sql_spec() + " "@ + and_filters_spec(filters);
    assert(nl_order =~= nl_order.take(12) + "ORDER BY "@);
    assert(a =~= (front + nl_order.take(12)) + ("ORDER BY "@ + order) + (nl_limit + int_decimal(
        limit,
    ) + " OFFSET "@ + int_decimal(offset)));
    assert(nl_limit =~= nl_limit.take(12) + "LIMIT "@);
    assert(a =~= (front + nl_order + order + nl_limit.take(12)) + ("LIMIT "@ + int_decimal(limit)
        + " OFFSET "@ + int_decimal(offset)));
    // Random songs.
    let years = number_filter("so.year >= "@, p.from_year) + number_filter("so.year <= "@, p.to_year);
    let genre = match p.genre {
        Some(x) => seq!["so.genre = '"@ + sql_quote_spec(x@) + "'"@],
        None => Seq::<Seq<char>>::empty(),
    };
    let folder = folder_filter("so.server_id = "@, p.music_folder_id);
    assert(random_song_filters_spec(p) == years + genre + folder);
    if p.music_folder_id is None {
        assert(folder =~= Seq::<Seq<char>>::empty());
    }
    if p.genre is None {
        assert(genre =~= Seq::<Seq<char>>::empty());
    }
    if p.from_year is None && p.to_year is None {
        assert(years =~= Seq::<Seq<char>>::empty());
    }
    assert(years + genre + folder =~= years + genre + folder);
    let rs = random_songs_sql_spec(p);
    let rl = "\n           ORDER BY RANDOM()\n           LIMIT "@;
    assert(rl =~= rl.take(12) + "ORDER BY RANDOM()\n           LIMIT "@);
    assert(rs =~= (SONG_COLUMNS_SQL@ + "1=1 "@ + and_filters_spec(random_song_filters_spec(p))
        + rl.take(12)) + ("ORDER BY RANDOM()\n           LIMIT "@ + int_decimal(
        page_size_spec(p.size),
    )));
    // Songs by genre.
    let gs = songs_by_genre_sql_spec(g);
    let mid = "' COLLATE NOCASE\n           ORDER BY so.title COLLATE NOCASE\n           LIMIT "@;
    let tail = int_decimal(page_size_spec(g.count)) + " OFFSET "@ + int_decimal(
        page_offset_spec(g.offset),
    );
    assert(mid =~= "' COLLATE NOCASE"@ + mid.skip(16));
    assert(gs =~= SONG_COLUMNS_SQL@ + ("so.genre = '"@ + sql_quote_spec(g.genre@)
        + "' COLLATE NOCASE"@) + (mid.skip(16) + tail));
    assert(mid =~= mid.take(28) + "ORDER BY so.title COLLATE NOCASE"@ + mid.skip(60));
    assert(gs =~= (SONG_COLUMNS_SQL@ + "so.genre = '"@ + sql_quote_spec(g.genre@) + mid.take(28))
        + "ORDER BY so.title COLLATE NOCASE"@ + (mid.skip(60) + tail));
    assert(mid =~= mid.take(mid.len() - 6) + "LIMIT "@);
    assert(gs =~= (SONG_COLUMNS_SQL@ + "so.genre = '"@ + sql_quote_spec(g.genre@) + mid.take(
        mid.len() - 6,
    )) + ("LIMIT "@ + int_decimal(page_size_spec(g.count)) + " OFFSET "@ + int_decimal(
        page_offset_spec(g.offset),
    )));
}

} // verus!
