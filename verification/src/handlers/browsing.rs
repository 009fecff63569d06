//! Browsing endpoints: music folders, indexes, directories, artists, albums, songs.

use vstd::prelude::*;
use crate::error::{ErrorCode, SubsonicError};
use crate::text::{int_decimal, parse_i32, parse_i32_spec};
use crate::sql::with_number;

verus! {

pub struct GetIndexesParams {
    pub music_folder_id: Option<String>,
    pub if_modified_since: Option<i64>,
}

pub struct GetMusicDirectoryParams {
    pub id: String,
}

pub struct GetArtistsParams {
    pub music_folder_id: Option<String>,
}

pub struct GetArtistParams {
    pub id: String,
}

pub struct GetAlbumParams {
    pub id: String,
}

pub struct GetSongParams {
    pub id: String,
}

pub struct GetVideoInfoParams {
    pub id: String,
}

pub struct GetArtistInfoParams {
    pub id: String,
    pub count: Option<i32>,
    pub include_not_present: Option<bool>,
}

pub struct GetAlbumInfoParams {
    pub id: String,
}

// ── Music folders ─────────────────────────────────────────────────────────────

/// The server a `musicFolderId` parameter restricts a listing to: the
/// parameter parsed as an `i32`; a missing or unparsable one restricts nothing.
pub open spec fn server_filter_spec(music_folder_id: Option<String>) -> Option<i32> {
    match music_folder_id {
        Some(s) => parse_i32_spec(s@),
        None => None,
    }
}

pub fn server_filter(music_folder_id: &Option<String>) -> (r: Option<i32>)
    ensures
        r == server_filter_spec(*music_folder_id),
{
    match music_folder_id {
        Some(s) => parse_i32(s.as_str()),
        None => None,
    }
}

// ── getMusicDirectory ─────────────────────────────────────────────────────────

/// One step of resolving a `getMusicDirectory` id.  An id is tried as a server
/// (music folder) id first, then as an artist id, then as an album id.
#[derive(Debug, Clone, Copy, PartialEq, Eq, Structural)]
pub enum DirectoryStep {
    /// Ask whether a server with this DB id exists.
    CheckServer(i32),
    /// Ask whether the id names an artist.
    LookupArtist,
    /// Ask whether the id names an album.
    LookupAlbum,
    /// List the artists of this server as directories.
    ListServerArtists(i32),
    /// List the albums of the artist found as directories.
    ListArtistAlbums,
    /// List the songs of the album found.
    ListAlbumSongs,
    /// Nothing matched: answer "not found".
    NotFound,
}

/// Whether a step asks a question (rather than deciding the answer).
pub open spec fn is_lookup(s: DirectoryStep) -> bool {
    s is CheckServer || s is LookupArtist || s is LookupAlbum
}

/// The first step for an id: a number is first tried as a server id.
pub open spec fn directory_first_spec(id: Seq<char>) -> DirectoryStep {
    match parse_i32_spec(id) {
        Some(sid) => DirectoryStep::CheckServer(sid),
        None => DirectoryStep::LookupArtist,
    }
}

/// The step after a lookup answered `found`.
pub open spec fn directory_next_spec(step: DirectoryStep, found: bool) -> DirectoryStep {
    match step {
        DirectoryStep::CheckServer(sid) => if found {
            DirectoryStep::ListServerArtists(sid)
        } else {
            DirectoryStep::LookupArtist
        },
        DirectoryStep::LookupArtist => if found {
            DirectoryStep::ListArtistAlbums
        } else {
            DirectoryStep::LookupAlbum
        },
        DirectoryStep::LookupAlbum => if found {
            DirectoryStep::ListAlbumSongs
        } else {
            DirectoryStep::NotFound
        },
        other => other,
    }
}

pub fn directory_first_step(id: &str) -> (r: DirectoryStep)
    ensures
        r == directory_first_spec(id@),
{
    match parse_i32(id) {
        Some(sid) => DirectoryStep::CheckServer(sid),
        None => DirectoryStep::LookupArtist,
    }
}

pub fn directory_next_step(step: DirectoryStep, found: bool) -> (r: DirectoryStep)
    ensures
        r == directory_next_spec(step, found),
{
    match step {
        DirectoryStep::CheckServer(sid) => if found {
            DirectoryStep::ListServerArtists(sid)
        } else {
            DirectoryStep::LookupArtist
        },
        DirectoryStep::LookupArtist => if found {
            DirectoryStep::ListArtistAlbums
        } else {
            DirectoryStep::LookupAlbum
        },
        DirectoryStep::LookupAlbum => if found {
            DirectoryStep::ListAlbumSongs
        } else {
            DirectoryStep::NotFound
        },
        other => other,
    }
}

/// The number of lookups still possible from a step.
pub open spec fn lookups_left(s: DirectoryStep) -> nat {
    match s {
        DirectoryStep::CheckServer(_) => 3,
        DirectoryStep::LookupArtist => 2,
        DirectoryStep::LookupAlbum => 1,
        _ => 0,
    }
}

/// Resolving an id asks at most three questions: every answer moves on, and
/// the steps that decide the answer are final.
pub proof fn law_directory_resolution_terminates(step: DirectoryStep, found: bool)
    ensures
        is_lookup(step) ==> lookups_left(directory_next_spec(step, found)) < lookups_left(step),
        !is_lookup(step) ==> directory_next_spec(step, found) == step,
        lookups_left(directory_first_spec(Seq::empty())) <= 3,
{
}

/// An id that is the number of an existing server is always listed as that
/// server, before it is tried as an artist or an album; an id that names
/// nothing is answered "not found".
pub proof fn law_directory_server_first(id: Seq<char>)
    ensures
        parse_i32_spec(id) matches Some(sid) ==> directory_next_spec(directory_first_spec(id), true)
            == DirectoryStep::ListServerArtists(sid),
        directory_next_spec(
            directory_next_spec(
                directory_next_spec(directory_first_spec(id), false),
                false,
            ),
            false,
        ) == DirectoryStep::NotFound || parse_i32_spec(id) is None,
        parse_i32_spec(id) is None ==> directory_next_spec(
            directory_next_spec(directory_first_spec(id), false),
            false,
        ) == DirectoryStep::NotFound,
{
}

/// The name of a server directory.
pub fn server_directory_name(server_id: i32) -> (r: String)
    ensures
        r@ == "Server "@ + int_decimal(server_id as int),
{
    with_number("Server ", server_id as i64)
}

/// `message` followed by `id`.
pub fn message_with_id(message: &str, id: &str) -> (r: String)
    ensures
        r@ == message@ + id@,
{
    let mut r = String::from_str(message);
    r.append(id);
    r
}

/// The "not found" error of an id that names nothing.
pub fn directory_not_found(id: &str) -> (e: SubsonicError)
    ensures
        e.code == ErrorCode::NotFound,
        e.message@ == "No directory found for id: "@ + id@,
{
    let m = message_with_id("No directory found for id: ", id);
    SubsonicError::not_found(m.as_str())
}

// ── getGenres ─────────────────────────────────────────────────────────────────

/// One genre with its song count and album count.
pub struct GenreCount {
    pub name: String,
    pub song_count: i64,
    pub album_count: i64,
}

/// The album count of `genre`: that of the first album row with the same
/// genre name, 0 when there is none.
pub open spec fn album_count_of(album_counts: Seq<(String, i64)>, genre: Seq<char>) -> i64
    decreases album_counts.len(),
{
    if album_counts.len() == 0 {
        0
    } else if album_counts[0].0@ == genre {
        album_counts[0].1
    } else {
        album_count_of(album_counts.drop_first(), genre)
    }
}

fn album_count_lookup(album_counts: &Vec<(String, i64)>, genre: &String) -> (r: i64)
    ensures
        r == album_count_of(album_counts@, genre@),
{
    let mut i: usize = 0;
    assert(album_counts@.subrange(0, album_counts@.len() as int) =~= album_counts@);
    while i < album_counts.len()
        invariant
            i <= album_counts@.len(),
            album_count_of(album_counts@, genre@) == album_count_of(
                album_counts@.subrange(i as int, album_counts@.len() as int),
                genre@,
            ),
        decreases album_counts.len() - i,
    {
        let ghost rest = album_counts@.subrange(i as int, album_counts@.len() as int);
        assert(rest[0] == album_counts@[i as int]);
        if album_counts[i].0 == *genre {
            return album_counts[i].1;
        }
        assert(rest.drop_first() =~= album_counts@.subrange(i + 1, album_counts@.len() as int));
        i = i + 1;
    }
    0
}

/// The genre list: every song genre in order, with its song count and the
/// album count of the same genre.
pub fn genre_counts(song_counts: Vec<(String, i64)>, album_counts: &Vec<(String, i64)>) -> (r: Vec<
    GenreCount,
>)
    ensures
        r@.len() == song_counts@.len(),
        forall|i: int|
            0 <= i < r@.len() ==> {
                &&& (#[trigger] r@[i]).name@ == song_counts@[i].0@
                &&& r@[i].song_count == song_counts@[i].1
                &&& r@[i].album_count == album_count_of(album_counts@, song_counts@[i].0@)
            },
{
    let mut r: Vec<GenreCount> = Vec::new();
    let mut i: usize = 0;
    while i < song_counts.len()
        invariant
            i <= song_counts@.len(),
            r@.len() == i,
            forall|j: int|
                0 <= j < i ==> {
                    &&& (#[trigger] r@[j]).name@ == song_counts@[j].0@
                    &&& r@[j].song_count == song_counts@[j].1
                    &&& r@[j].album_count == album_count_of(album_counts@, song_counts@[j].0@)
                },
        decreases song_counts.len() - i,
    {
        let name = song_counts[i].0.clone();
        let album_count = album_count_lookup(album_counts, &name);
        r.push(GenreCount { name, song_count: song_counts[i].1, album_count });
        i = i + 1;
    }
    r
}

} // verus!
