//! The management dashboard and the manual scan trigger: what each backend
//! row shows, which configured servers are still waiting for a scan, and how
//! a scan request is answered.

use vstd::prelude::*;
use crate::config::ServerConfig;
use crate::text::{chars_eq, chars_of, decimal_i64, int_decimal, nat_digits, string_of};

verus! {

/// One `upstream_servers` row as the dashboard reads it.
pub struct DbServer {
    pub id: i32,
    pub name: String,
    pub url: String,
    pub priority: i32,
    pub last_scanned_at: Option<String>,
}

/// The count that a `(server_id, count)` list holds for `id`: that of the
/// first entry for `id`, 0 when there is none.
pub open spec fn count_for(counts: Seq<(i32, i64)>, id: i32) -> i64
    decreases counts.len(),
{
    if counts.len() == 0 {
        0
    } else if counts[0].0 == id {
        counts[0].1
    } else {
        count_for(counts.drop_first(), id)
    }
}

pub fn lookup_count(counts: &Vec<(i32, i64)>, id: i32) -> (r: i64)
    ensures
        r == count_for(counts@, id),
{
    let mut i: usize = 0;
    assert(counts@.subrange(0, counts@.len() as int) =~= counts@);
    while i < counts.len()
        invariant
            i <= counts@.len(),
            count_for(counts@, id) == count_for(
                counts@.subrange(i as int, counts@.len() as int),
                id,
            ),
        decreases counts.len() - i,
    {
        let ghost rest = counts@.subrange(i as int, counts@.len() as int);
        assert(rest[0] == counts@[i as int]);
        if counts[i].0 == id {
            return counts[i].1;
        }
        assert(rest.drop_first() =~= counts@.subrange(i + 1, counts@.len() as int));
        i = i + 1;
    }
    0
}

/// Whether some configured server is named `name`.
pub open spec fn configured(servers: Seq<ServerConfig>, name: Seq<char>) -> bool {
    exists|i: int| 0 <= i < servers.len() && (#[trigger] servers[i]).name@ == name
}

pub fn is_configured(servers: &Vec<ServerConfig>, name: &String) -> (r: bool)
    ensures
        r == configured(servers@, name@),
{
    let target = chars_of(name.as_str());
    let mut i: usize = 0;
    while i < servers.len()
        invariant
            i <= servers@.len(),
            target@ == name@,
            forall|j: int| 0 <= j < i ==> (#[trigger] servers@[j]).name@ != name@,
        decreases servers.len() - i,
    {
        let n = chars_of(servers[i].name.as_str());
        if chars_eq(&n, &target) {
            return true;
        }
        i = i + 1;
    }
    false
}

/// What the dashboard shows for one scanned backend.
pub struct ServerSummary {
    pub artists: i64,
    pub albums: i64,
    pub songs: i64,
    /// When it was last scanned, or `never`.
    pub scanned: String,
    /// Whether `nexus.toml` still configures it.
    pub in_config: bool,
}

/// The summary of a backend row: its counts from the per-server count lists,
/// its last scan time (`never` if none), and whether it is still configured.
pub fn server_summary(
    row: &DbServer,
    artist_counts: &Vec<(i32, i64)>,
    album_counts: &Vec<(i32, i64)>,
    song_counts: &Vec<(i32, i64)>,
    servers: &Vec<ServerConfig>,
) -> (r: ServerSummary)
    ensures
        r.artists == count_for(artist_counts@, row.id),
        r.albums == count_for(album_counts@, row.id),
        r.songs == count_for(song_counts@, row.id),
        r.scanned@ == (match row.last_scanned_at {
            Some(s) => s@,
            None => "never"@,
        }),
        r.in_config == configured(servers@, row.name@),
{
    ServerSummary {
        artists: lookup_count(artist_counts, row.id),
        albums: lookup_count(album_counts, row.id),
        songs: lookup_count(song_counts, row.id),
        scanned: match &row.last_scanned_at {
            Some(s) => s.clone(),
            None => String::from_str("never"),
        },
        in_config: is_configured(servers, &row.name),
    }
}

/// The decimal text of `n`.
fn decimal_text(n: i64) -> (r: String)
    ensures
        r@ == int_decimal(n as int),
{
    let d = decimal_i64(n);
    string_of(&d)
}

/// The badge of a backend row: whether `nexus.toml` still configures it.
pub open spec fn config_badge_spec(in_config: bool) -> Seq<char> {
    if in_config {
        "<span class=\"badge ok\">✓ configured</span>"@
    } else {
        "<span class=\"badge warn\">⚠ not in nexus.toml</span>"@
    }
}

/// The dashboard's table row of a backend row and its summary.
pub open spec fn server_row_html_spec(row: DbServer, s: ServerSummary) -> Seq<char> {
    "<tr>\n  <td><strong>"@ + row.name@ + "</strong><br><small class=\"muted\">"@ + row.url@
        + "</small></td>\n  <td class=\"center\">"@ + int_decimal(row.priority as int)
        + "</td>\n  <td class=\"center\">"@ + int_decimal(s.artists as int)
        + "</td>\n  <td class=\"center\">"@ + int_decimal(s.albums as int)
        + "</td>\n  <td class=\"center\">"@ + int_decimal(s.songs as int)
        + "</td>\n  <td class=\"center\"><code>"@ + s.scanned@ + "</code></td>\n  <td class=\"center\">"@
        + config_badge_spec(s.in_config) + "</td>\n</tr>"@
}

/// The dashboard's table row of a backend row and its summary.
pub fn server_row_html(row: &DbServer, s: &ServerSummary) -> (r: String)
    ensures
        r@ == server_row_html_spec(*row, *s),
{
    let mut r = String::from_str("<tr>\n  <td><strong>");
    r.append(row.name.as_str());
    r.append("</strong><br><small class=\"muted\">");
    r.append(row.url.as_str());
    r.append("</small></td>\n  <td class=\"center\">");
    let priority = decimal_text(row.priority as i64);
    r.append(priority.as_str());
    r.append("</td>\n  <td class=\"center\">");
    let artists = decimal_text(s.artists);
    r.append(artists.as_str());
    r.append("</td>\n  <td class=\"center\">");
    let albums = decimal_text(s.albums);
    r.append(albums.as_str());
    r.append("</td>\n  <td class=\"center\">");
    let songs = decimal_text(s.songs);
    r.append(songs.as_str());
    r.append("</td>\n  <td class=\"center\"><code>");
    r.append(s.scanned.as_str());
    r.append("</code></td>\n  <td class=\"center\">");
    if s.in_config {
        r.append("<span class=\"badge ok\">✓ configured</span>");
    } else {
        r.append("<span class=\"badge warn\">⚠ not in nexus.toml</span>");
    }
    r.append("</td>\n</tr>");
    r
}

/// The dashboard's table row of a configured server that has no database row
/// yet.
pub open spec fn pending_row_html_spec(cfg: ServerConfig) -> Seq<char> {
    "<tr class=\"dim\">\n  <td><strong>"@ + cfg.name@ + "</strong><br><small class=\"muted\">"@
        + cfg.url@ + "</small></td>\n  <td class=\"center\">"@ + int_decimal(cfg.priority as int)
        + "</td>\n  <td class=\"center\">—</td>\n  <td class=\"center\">—</td>\n  <td class=\"center\">—</td>\n  <td class=\"center\"><code>not scanned</code></td>\n  <td class=\"center\"><span class=\"badge warn\">⚠ pending scan</span></td>\n</tr>"@
}

/// The dashboard's table row of a configured server that has no database row
/// yet.
pub fn pending_row_html(cfg: &ServerConfig) -> (r: String)
    ensures
        r@ == pending_row_html_spec(*cfg),
{
    let mut r = String::from_str("<tr class=\"dim\">\n  <td><strong>");
    r.append(cfg.name.as_str());
    r.append("</strong><br><small class=\"muted\">");
    r.append(cfg.url.as_str());
    r.append("</small></td>\n  <td class=\"center\">");
    let priority = decimal_text(cfg.priority as i64);
    r.append(priority.as_str());
    r.append(
        "</td>\n  <td class=\"center\">—</td>\n  <td class=\"center\">—</td>\n  <td class=\"center\">—</td>\n  <td class=\"center\"><code>not scanned</code></td>\n  <td class=\"center\"><span class=\"badge warn\">⚠ pending scan</span></td>\n</tr>",
    );
    r
}

/// Whether some database row is named `name`.
pub open spec fn scanned_before(rows: Seq<DbServer>, name: Seq<char>) -> bool {
    exists|i: int| 0 <= i < rows.len() && (#[trigger] rows[i]).name@ == name
}

fn in_db(rows: &Vec<DbServer>, name: &String) -> (r: bool)
    ensures
        r == scanned_before(rows@, name@),
{
    let mut i: usize = 0;
    while i < rows.len()
        invariant
            i <= rows@.len(),
            forall|j: int| 0 <= j < i ==> (#[trigger] rows@[j]).name@ != name@,
        decreases rows.len() - i,
    {
        if rows[i].name == *name {
            return true;
        }
        i = i + 1;
    }
    false
}

/// The configured servers that have no database row yet, in configuration
/// order (by position).
pub open spec fn pending_positions(servers: Seq<ServerConfig>, rows: Seq<DbServer>) -> Seq<int>
    decreases servers.len(),
{
    if servers.len() == 0 {
        Seq::empty()
    } else {
        pending_positions(servers.drop_last(), rows) + (if !scanned_before(
            rows,
            servers.last().name@,
        ) {
            seq![servers.len() - 1]
        } else {
            Seq::empty()
        })
    }
}

pub fn pending_servers(servers: &Vec<ServerConfig>, rows: &Vec<DbServer>) -> (r: Vec<usize>)
    ensures
        r@.map_values(|i: usize| i as int) == pending_positions(servers@, rows@),
{
    let mut r: Vec<usize> = Vec::new();
    let mut i: usize = 0;
    while i < servers.len()
        invariant
            i <= servers@.len(),
            r@.map_values(|k: usize| k as int) == pending_positions(
                servers@.take(i as int),
                rows@,
            ),
        decreases servers.len() - i,
    {
        let ghost before = r@;
        assert(servers@.take(i + 1).drop_last() =~= servers@.take(i as int));
        if !in_db(rows, &servers[i].name) {
            r.push(i);
            assert(r@.map_values(|k: usize| k as int) =~= before.map_values(|k: usize| k as int)
                + seq![i as int]);
        } else {
            assert(r@.map_values(|k: usize| k as int) =~= before.map_values(|k: usize| k as int)
                + Seq::<int>::empty());
        }
        i = i + 1;
    }
    assert(servers@.take(servers@.len() as int) =~= servers@);
    r
}

/// How a manual scan request is answered.
pub struct ScanReply {
    /// `true` for "202 Accepted" (a scan was started), `false` for "200 OK".
    pub accepted: bool,
    pub status: String,
    pub message: String,
}

/// With no servers configured nothing is scanned; otherwise a scan of all of
/// them is started in the background.
pub fn scan_trigger_reply(server_count: usize) -> (r: ScanReply)
    ensures
        server_count == 0 ==> !r.accepted && r.status@ == "noop"@ && r.message@
            == "No servers configured in nexus.toml"@,
        server_count > 0 ==> r.accepted && r.status@ == "started"@ && r.message@ == "Scan started for "@
            + int_decimal(server_count as int) + " server(s). Check the dashboard for results."@,
{
    if server_count == 0 {
        ScanReply {
            accepted: false,
            status: String::from_str("noop"),
            message: String::from_str("No servers configured in nexus.toml"),
        }
    } else {
        let mut m = String::from_str("Scan started for ");
        let digits = string_of(&nat_digits(server_count as u64));
        m.append(digits.as_str());
        m.append(" server(s). Check the dashboard for results.");
        ScanReply { accepted: true, status: String::from_str("started"), message: m }
    }
}

} // verus!
