//! Search endpoints.

use vstd::prelude::*;
use crate::queries::{CANONICAL_ALBUM_SQL, CANONICAL_ARTIST_SQL};
use crate::sql::with_number;
use crate::text::holds_part;
use crate::text::{int_decimal, push_char};

verus! {

pub struct SearchParams {
    pub artist: Option<String>,
    pub album: Option<String>,
    pub title: Option<String>,
    pub any: Option<bool>,
    pub count: Option<i32>,
    pub offset: Option<i32>,
    pub newer_than: Option<i64>,
}

pub struct Search2Params {
    pub query: String,
    pub artist_count: Option<i32>,
    pub artist_offset: Option<i32>,
    pub album_count: Option<i32>,
    pub album_offset: Option<i32>,
    pub song_count: Option<i32>,
    pub song_offset: Option<i32>,
    pub music_folder_id: Option<String>,
}

// ── Query text ────────────────────────────────────────────────────────────────

/// The query of the legacy `search` endpoint: the title if given, else the
/// artist, else the album, else nothing.
pub open spec fn legacy_query_spec(p: SearchParams) -> Seq<char> {
    if p.title is Some {
        p.title->0@
    } else if p.artist is Some {
        p.artist->0@
    } else if p.album is Some {
        p.album->0@
    } else {
        Seq::empty()
    }
}

pub fn legacy_search_query(params: &SearchParams) -> (r: String)
    ensures
        r@ == legacy_query_spec(*params),
{
    match &params.title {
        Some(t) => t.clone(),
        None => match &params.artist {
            Some(a) => a.clone(),
            None => match &params.album {
                Some(a) => a.clone(),
                None => String::new(),
            },
        },
    }
}

/// What one character of a search query becomes inside a `LIKE '%…%'`
/// pattern: quotes are doubled and the wildcards `%` and `_` are escaped with
/// a backslash, so that the query matches literally.
pub open spec fn like_piece(c: char) -> Seq<char> {
    if c == '\'' {
        seq!['\'', '\'']
    } else if c == '%' {
        seq!['\\', '%']
    } else if c == '_' {
        seq!['\\', '_']
    } else {
        seq![c]
    }
}

/// The query escaped for a `LIKE` pattern (std's
/// `replace('\'', "''").replace('%', "\\%").replace('_', "\\_")`).
pub open spec fn like_escape_spec(s: Seq<char>) -> Seq<char>
    decreases s.len(),
{
    if s.len() == 0 {
        Seq::empty()
    } else {
        like_escape_spec(s.drop_last()) + like_piece(s.last())
    }
}

pub fn like_escape(s: &str) -> (r: String)
    ensures
        r@ == like_escape_spec(s@),
{
    let mut r = String::new();
    let n = s.unicode_len();
    let mut i: usize = 0;
    while i < n
        invariant
            n == s@.len(),
            i <= n,
            r@ == like_escape_spec(s@.take(i as int)),
        decreases n - i,
    {
        let c = s.get_char(i);
        assert(s@.take(i + 1).drop_last() =~= s@.take(i as int));
        let ghost before = r@;
        if c == '\'' {
            push_char(&mut r, '\'');
            push_char(&mut r, '\'');
        } else if c == '%' {
            push_char(&mut r, '\\');
            push_char(&mut r, '%');
        } else if c == '_' {
            push_char(&mut r, '\\');
            push_char(&mut r, '_');
        } else {
            push_char(&mut r, c);
        }
        assert(r@ =~= before + like_piece(c));
        i = i + 1;
    }
    assert(s@.take(n as int) =~= s@);
    r
}

/// A query is escaped character by character, in order: a quote becomes two
/// quotes, `%` and `_` get a backslash before them, and every other character
/// stays as it is; the escape of two texts one after the other is the escape
/// of the first followed by that of the second.
pub proof fn law_like_escape_per_character(a: Seq<char>, b: Seq<char>, c: char)
    ensures
        like_escape_spec(Seq::empty()) == Seq::<char>::empty(),
        like_escape_spec(seq![c]) == (if c == '\'' {
            seq!['\'', '\'']
        } else if c == '%' {
            seq!['\\', '%']
        } else if c == '_' {
            seq!['\\', '_']
        } else {
            seq![c]
        }),
        like_escape_spec(a + b) == like_escape_spec(a) + like_escape_spec(b),
    decreases b.len(),
{
    assert(seq![c].drop_last() =~= Seq::<char>::empty());
    assert(seq![c].last() == c);
    assert(like_escape_spec(Seq::<char>::empty()) == Seq::<char>::empty());
    assert(Seq::<char>::empty() + like_piece(c) =~= like_piece(c));
    assert(like_escape_spec(seq![c]) == like_piece(c));
    if b.len() == 0 {
        assert(a + b =~= a);
        assert(like_escape_spec(a) + like_escape_spec(b) =~= like_escape_spec(a));
    } else {
        law_like_escape_per_character(a, b.drop_last(), c);
        assert((a + b).drop_last() =~= a + b.drop_last());
        assert((a + b).last() == b.last());
        assert(like_escape_spec(a + b) =~= like_escape_spec(a) + like_escape_spec(b));
    }
}

/// Whether position `i` of `t` holds a `LIKE` wildcard.
pub open spec fn wildcard_at(t: Seq<char>, i: int) -> bool {
    0 <= i < t.len() && (t[i] == '%' || t[i] == '_')
}

/// Every `%` and `_` in an escaped query has a backslash right before it, so
/// neither acts as a wildcard.  A backslash of the query itself is kept as it
/// is, not doubled; this law says nothing of it.
pub proof fn law_like_wildcards_escaped(s: Seq<char>)
    ensures
        forall|i: int| #[trigger]
            wildcard_at(like_escape_spec(s), i) ==> i > 0 && like_escape_spec(s)[i - 1] == '\\',
    decreases s.len(),
{
    if s.len() > 0 {
        let pre = like_escape_spec(s.drop_last());
        law_like_wildcards_escaped(s.drop_last());
        let piece = like_piece(s.last());
        let all = like_escape_spec(s);
        assert(all == pre + piece);
        assert forall|i: int| #[trigger] wildcard_at(all, i) implies i > 0 && all[i - 1] == '\\' by {
            if i < pre.len() {
                assert(all[i] == pre[i]);
                assert(wildcard_at(pre, i));
                assert(all[i - 1] == pre[i - 1]);
            } else {
                assert(all[i] == piece[i - pre.len()]);
                if i - pre.len() == 0 {
                    assert(piece[0] != '%' && piece[0] != '_');
                } else {
                    assert(all[i - 1] == piece[i - 1 - pre.len()]);
                }
            }
        }
    }
}

// ── Paging ────────────────────────────────────────────────────────────────────

/// The page of one search result list: 20 entries from 0 unless given.
pub struct SearchPage {
    pub count: i64,
    pub offset: i64,
}

pub fn search_page(count: Option<i32>, offset: Option<i32>) -> (r: SearchPage)
    ensures
        r.count == (match count {
            Some(n) => n as int,
            None => 20,
        }),
        r.offset == (match offset {
            Some(n) => n as int,
            None => 0,
        }),
{
    SearchPage {
        count: match count {
            Some(n) => n as i64,
            None => 20,
        },
        offset: match offset {
            Some(n) => n as i64,
            None => 0,
        },
    }
}

// ── SQL ───────────────────────────────────────────────────────────────────────

pub const SONG_SEARCH_SQL: &'static str = "SELECT
            so.id       AS db_id,
            so.server_id,
            s.name      AS server_name,
            so.upstream_id,
            so.title,
            so.metadata_json
        FROM songs so
        JOIN upstream_servers s ON so.server_id = s.id
        WHERE so.title LIKE '%";

/// `head`, the escaped query, `middle`, then `LIMIT` and `OFFSET`.
pub open spec fn search_sql_spec(
    head: Seq<char>,
    query: Seq<char>,
    middle: Seq<char>,
    limit: int,
    offset: int,
) -> Seq<char> {
    head + like_escape_spec(query) + middle + int_decimal(limit) + " OFFSET "@ + int_decimal(
        offset,
    )
}

fn search_sql(head: &str, query: &str, middle: &str, limit: i64, offset: i64) -> (r: String)
    ensures
        r@ == search_sql_spec(head@, query@, middle@, limit as int, offset as int),
{
    let mut r = String::from_str(head);
    let q = like_escape(query);
    r.append(q.as_str());
    let l = with_number(middle, limit);
    r.append(l.as_str());
    let o = with_number(" OFFSET ", offset);
    r.append(o.as_str());
    r
}

pub open spec fn artist_search_head() -> Seq<char> {
    CANONICAL_ARTIST_SQL@ + " AND ar.name LIKE '%"@
}

pub open spec fn artist_search_middle() -> Seq<char> {
    "%' ESCAPE '\\' COLLATE NOCASE ORDER BY ar.name COLLATE NOCASE LIMIT "@
}

/// The SQL text that searches canonical artists by name.
pub fn artist_search_sql(query: &str, limit: i64, offset: i64) -> (r: String)
    ensures
        r@ == search_sql_spec(
            artist_search_head(),
            query@,
            artist_search_middle(),
            limit as int,
            offset as int,
        ),
{
    let mut head = String::from_str(CANONICAL_ARTIST_SQL);
    head.append(" AND ar.name LIKE '%");
    search_sql(
        head.as_str(),
        query,
        "%' ESCAPE '\\' COLLATE NOCASE ORDER BY ar.name COLLATE NOCASE LIMIT ",
        limit,
        offset,
    )
}

pub open spec fn album_search_head() -> Seq<char> {
    CANONICAL_ALBUM_SQL@ + " AND al.name LIKE '%"@
}

pub open spec fn album_search_middle() -> Seq<char> {
    "%' ESCAPE '\\' COLLATE NOCASE ORDER BY al.name COLLATE NOCASE LIMIT "@
}

/// The SQL text that searches canonical albums by name.
pub fn album_search_sql(query: &str, limit: i64, offset: i64) -> (r: String)
    ensures
        r@ == search_sql_spec(
            album_search_head(),
            query@,
            album_search_middle(),
            limit as int,
            offset as int,
        ),
{
    let mut head = String::from_str(CANONICAL_ALBUM_SQL);
    head.append(" AND al.name LIKE '%");
    search_sql(
        head.as_str(),
        query,
        "%' ESCAPE '\\' COLLATE NOCASE ORDER BY al.name COLLATE NOCASE LIMIT ",
        limit,
        offset,
    )
}

pub open spec fn song_search_middle() -> Seq<char> {
    "%' ESCAPE '\\' COLLATE NOCASE\n        ORDER BY so.title COLLATE NOCASE\n        LIMIT "@
}

/// The SQL text that searches songs by title.
pub fn song_search_sql(query: &str, limit: i64, offset: i64) -> (r: String)
    ensures
        r@ == search_sql_spec(SONG_SEARCH_SQL@, query@, song_search_middle(), limit as int, offset as int),
{
    search_sql(
        SONG_SEARCH_SQL,
        query,
        "%' ESCAPE '\\' COLLATE NOCASE\n        ORDER BY so.title COLLATE NOCASE\n        LIMIT ",
        limit,
        offset,
    )
}


/// A name search is a substring search: the SQL text of each search compares
/// its column with `LIKE '%` + the escaped query + `%'`, so a name that holds
/// the query anywhere matches, not only one that begins with it.
pub proof fn law_search_matches_substrings(query: Seq<char>, limit: int, offset: int)
    ensures
        holds_part(
            search_sql_spec(artist_search_head(), query, artist_search_middle(), limit, offset),
            "ar.name LIKE '%"@ + like_escape_spec(query) + "%' ESCAPE '\\'"@,
        ),
        holds_part(
            search_sql_spec(album_search_head(), query, album_search_middle(), limit, offset),
            "al.name LIKE '%"@ + like_escape_spec(query) + "%' ESCAPE '\\'"@,
        ),
        holds_part(
            search_sql_spec(SONG_SEARCH_SQL@, query, song_search_middle(), limit, offset),
            "so.title LIKE '%"@ + like_escape_spec(query) + "%' ESCAPE '\\'"@,
        ),
{
    let q = like_escape_spec(query);
    let esc = "%' ESCAPE '\\'"@;
    reveal_strlit("%' ESCAPE '\\'");
    let tail = int_decimal(limit) + " OFFSET "@ + int_decimal(offset);
    // Artists.
    reveal_strlit(" AND ar.name LIKE '%");
    reveal_strlit("ar.name LIKE '%");
    reveal_strlit("%' ESCAPE '\\' COLLATE NOCASE ORDER BY ar.name COLLATE NOCASE LIMIT ");
    let col = "ar.name LIKE '%"@;
    let h = artist_search_head();
    let m = artist_search_middle();
    let pre = h.take(h.len() - col.len());
    let post = m.skip(esc.len() as int) + tail;
    assert(h =~= pre + col);
    assert(m =~= esc + m.skip(esc.len() as int));
    assert(search_sql_spec(h, query, m, limit, offset) =~= pre + (col + q + esc) + post);
    // Albums.
    reveal_strlit(" AND al.name LIKE '%");
    reveal_strlit("al.name LIKE '%");
    reveal_strlit("%' ESCAPE '\\' COLLATE NOCASE ORDER BY al.name COLLATE NOCASE LIMIT ");
    let col = "al.name LIKE '%"@;
    let h = album_search_head();
    let m = album_search_middle();
    let pre = h.take(h.len() - col.len());
    let post = m.skip(esc.len() as int) + tail;
    assert(h =~= pre + col);
    assert(m =~= esc + m.skip(esc.len() as int));
    assert(search_sql_spec(h, query, m, limit, offset) =~= pre + (col + q + esc) + post);
    // Songs.
    reveal_strlit("SELECT
            so.id       AS db_id,
            so.server_id,
            s.name      AS server_name,
            so.upstream_id,
            so.title,
            so.metadata_json
        FROM songs so
        JOIN upstream_servers s ON so.server_id = s.id
        WHERE so.title LIKE '%");
    reveal_strlit("so.title LIKE '%");
    reveal_strlit("%' ESCAPE '\\' COLLATE NOCASE\n        ORDER BY so.title COLLATE NOCASE\n        LIMIT ");
    let col = "so.title LIKE '%"@;
    let h = SONG_SEARCH_SQL@;
    let m = song_search_middle();
    let pre = h.take(h.len() - col.len());
    let post = m.skip(esc.len() as int) + tail;
    assert(h =~= pre + col);
    assert(m =~= esc + m.skip(esc.len() as int));
    assert(search_sql_spec(h, query, m, limit, offset) =~= pre + (col + q + esc) + post);
}

} // verus!
