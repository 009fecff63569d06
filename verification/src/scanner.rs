//! The decisions of the upstream scanner.
//!
//! A scan fetches the full library of one upstream server and upserts it into
//! the local database.  The aggregation key of each entity is computed with
//! the per-server templates of `nexus.toml`.
//!
//! # The walk
//! A scan lists the artists, then stores each artist, lists and stores its
//! albums and, for each album, its songs; then it lists and stores the
//! podcast channels with their episodes, and the internet radio stations.
//! [`scan_next`] decides each step from the outcome of the previous one (what
//! was listed, stored, or failed); the caller performs the I/O it asks for.
//!
//! # Rescan detection
//! The templates used during the previous scan are stored in the
//! `upstream_servers` row.  On startup they are compared to the current
//! config; if they differ, all rows for that server are deleted and a fresh
//! scan is scheduled.

use vstd::prelude::*;
use crate::config::{MatchingConfig, ServerConfig};
use crate::template::{Template, eval_model, opt_view};
use crate::text::{chars_eq_str, chars_of, decimal_i64, int_decimal, string_of};

verus! {

// ── Aggregation keys ──────────────────────────────────────────────────────────

/// The fields of an upstream artist that an artist template can name.
pub struct ArtistKeyFields {
    pub music_brainz_id: Option<String>,
    pub name: String,
    pub sort_name: Option<String>,
}

/// The fields of an upstream album that an album template can name, besides
/// the artist's key.
pub struct AlbumKeyFields {
    pub music_brainz_id: Option<String>,
    pub name: String,
    pub sort_name: Option<String>,
    pub year: Option<i32>,
    pub display_artist: Option<String>,
}

/// The value of an artist field, by name; unknown names have none.
pub open spec fn artist_field(a: ArtistKeyFields, k: Seq<char>) -> Option<Seq<char>> {
    if k == "music_brainz_id"@ {
        opt_view(a.music_brainz_id)
    } else if k == "name"@ {
        Some(a.name@)
    } else if k == "sort_name"@ {
        opt_view(a.sort_name)
    } else {
        None
    }
}

pub open spec fn artist_lookup(a: ArtistKeyFields) -> spec_fn(Seq<char>) -> Option<Seq<char>> {
    |k: Seq<char>| artist_field(a, k)
}

/// The value of an album field, by name; `year` is its decimal text and
/// `artist_key` the key already computed for the album's artist.
pub open spec fn album_field(a: AlbumKeyFields, artist_key: Seq<char>, k: Seq<char>) -> Option<
    Seq<char>,
> {
    if k == "music_brainz_id"@ {
        opt_view(a.music_brainz_id)
    } else if k == "name"@ {
        Some(a.name@)
    } else if k == "sort_name"@ {
        opt_view(a.sort_name)
    } else if k == "year"@ {
        match a.year {
            Some(y) => Some(int_decimal(y as int)),
            None => None,
        }
    } else if k == "display_artist"@ {
        opt_view(a.display_artist)
    } else if k == "artist_key"@ {
        Some(artist_key)
    } else {
        None
    }
}

pub open spec fn album_lookup(a: AlbumKeyFields, artist_key: Seq<char>) -> spec_fn(Seq<char>) -> Option<
    Seq<char>,
> {
    |k: Seq<char>| album_field(a, artist_key, k)
}

fn clone_opt(o: &Option<String>) -> (r: Option<String>)
    ensures
        opt_view(r) == opt_view(*o),
{
    match o {
        Some(s) => Some(s.clone()),
        None => None,
    }
}

/// The aggregation key of an artist.
pub fn eval_artist(template: &Template, artist: &ArtistKeyFields) -> (r: String)
    ensures
        r@ == eval_model(template@, artist_lookup(*artist)),
{
    let lookup = |field: &str| -> (r: Option<String>)
        ensures
            opt_view(r) == artist_field(*artist, field@),
        {
            let f = chars_of(field);
            if chars_eq_str(&f, "music_brainz_id") {
                clone_opt(&artist.music_brainz_id)
            } else if chars_eq_str(&f, "name") {
                Some(artist.name.clone())
            } else if chars_eq_str(&f, "sort_name") {
                clone_opt(&artist.sort_name)
            } else {
                None
            }
        };
    template.eval_with(&lookup, Ghost(artist_lookup(*artist)))
}

/// The aggregation key of an album, given the key of its artist.
pub fn eval_album(template: &Template, album: &AlbumKeyFields, artist_key: &str) -> (r: String)
    ensures
        r@ == eval_model(template@, album_lookup(*album, artist_key@)),
{
    let lookup = |field: &str| -> (r: Option<String>)
        ensures
            opt_view(r) == album_field(*album, artist_key@, field@),
        {
            let f = chars_of(field);
            if chars_eq_str(&f, "music_brainz_id") {
                clone_opt(&album.music_brainz_id)
            } else if chars_eq_str(&f, "name") {
                Some(album.name.clone())
            } else if chars_eq_str(&f, "sort_name") {
                clone_opt(&album.sort_name)
            } else if chars_eq_str(&f, "year") {
                match album.year {
                    Some(y) => Some(string_of(&decimal_i64(y as i64))),
                    None => None,
                }
            } else if chars_eq_str(&f, "display_artist") {
                clone_opt(&album.display_artist)
            } else if chars_eq_str(&f, "artist_key") {
                Some(String::from_str(artist_key))
            } else {
                None
            }
        };
    template.eval_with(&lookup, Ghost(album_lookup(*album, artist_key@)))
}

// ── Server rows ───────────────────────────────────────────────────────────────

/// The stored `upstream_servers` row of a server: its id and the templates of
/// its last scan.
pub struct StoredServer {
    pub id: i32,
    pub artist_key_template: Option<String>,
    pub album_key_template: Option<String>,
}

/// Whether the stored templates differ from the configured ones.
pub open spec fn templates_changed_spec(row: StoredServer, m: MatchingConfig) -> bool {
    opt_view(row.artist_key_template) != Some(m.artist@) || opt_view(row.album_key_template)
        != Some(m.album@)
}

fn same_template(stored: &Option<String>, current: &String) -> (r: bool)
    ensures
        r == (opt_view(*stored) == Some(current@)),
{
    match stored {
        Some(s) => *s == *current,
        None => false,
    }
}

pub fn templates_changed(row: &StoredServer, matching: &MatchingConfig) -> (r: bool)
    ensures
        r == templates_changed_spec(*row, *matching),
{
    !same_template(&row.artist_key_template, &matching.artist) || !same_template(
        &row.album_key_template,
        &matching.album,
    )
}

/// What startup does with the `upstream_servers` row of a configured server.
#[derive(Debug, Clone, Copy, PartialEq, Eq, Structural)]
pub enum ServerRowAction {
    /// First time this server is seen: insert its row and scan it.
    Insert,
    /// Its templates changed: wipe its data, store the new templates, rescan.
    Rewrite,
    /// Nothing changed: only refresh its priority.
    RefreshPriority,
}

pub open spec fn server_row_action_spec(existing: Option<StoredServer>, cfg: ServerConfig) -> ServerRowAction {
    match existing {
        None => ServerRowAction::Insert,
        Some(row) => if templates_changed_spec(row, cfg.matching) {
            ServerRowAction::Rewrite
        } else {
            ServerRowAction::RefreshPriority
        },
    }
}

/// The action for a server, given its stored row (found by name and URL).
pub fn server_row_action(existing: &Option<StoredServer>, cfg: &ServerConfig) -> (r: ServerRowAction)
    ensures
        r == server_row_action_spec(*existing, *cfg),
{
    match existing {
        None => ServerRowAction::Insert,
        Some(row) => if templates_changed(row, &cfg.matching) {
            ServerRowAction::Rewrite
        } else {
            ServerRowAction::RefreshPriority
        },
    }
}

/// Whether an action calls for a full scan.
pub fn needs_rescan(action: ServerRowAction) -> (r: bool)
    ensures
        r == (action != ServerRowAction::RefreshPriority),
{
    action != ServerRowAction::RefreshPriority
}

/// The row that an insert or a rewrite stores: the configured templates.
pub open spec fn stored_after(id: i32, cfg: ServerConfig) -> StoredServer {
    StoredServer {
        id,
        artist_key_template: Some(cfg.matching.artist),
        album_key_template: Some(cfg.matching.album),
    }
}

/// The first run of a server always scans it; a server whose stored
/// templates are the configured ones is not scanned again, and once its row
/// stores the configured templates the next startup leaves its data alone.
pub proof fn law_rescan_only_on_change(id: i32, cfg: ServerConfig, row: StoredServer)
    ensures
        server_row_action_spec(None, cfg) == ServerRowAction::Insert,
        server_row_action_spec(Some(stored_after(id, cfg)), cfg)
            == ServerRowAction::RefreshPriority,
        server_row_action_spec(Some(row), cfg) == ServerRowAction::RefreshPriority
            <==> !templates_changed_spec(row, cfg.matching),
{
}

// ── Upstream failures ─────────────────────────────────────────────────────────

/// The upstream calls a scan makes.
#[derive(Debug, Clone, Copy, PartialEq, Eq, Structural)]
pub enum ScanCall {
    /// `getArtists`: the artist list the scan walks.
    ListArtists,
    /// `getArtist`: the albums of one artist.
    GetArtist,
    /// `getAlbum`: the songs of one album.
    GetAlbum,
    /// `getPodcasts`, with episodes.
    GetPodcasts,
    /// `getInternetRadioStations`.
    GetRadioStations,
}

/// What a scan does when an upstream call fails.
#[derive(Debug, Clone, Copy, PartialEq, Eq, Structural)]
pub enum OnFailure {
    /// The scan ends with an upstream error.
    AbortScan,
    /// The item (an artist's albums, an album's songs, the podcasts, the
    /// radio stations) is skipped and the scan goes on.
    SkipItem,
}

/// What the scan does when `call` fails.
pub open spec fn failure_decision(call: ScanCall) -> OnFailure {
    if call == ScanCall::ListArtists {
        OnFailure::AbortScan
    } else {
        OnFailure::SkipItem
    }
}

/// Only the artist list is essential: without it there is nothing to scan;
/// every other failing call skips what it would have fetched.
pub fn on_upstream_failure(call: ScanCall) -> (r: OnFailure)
    ensures
        r == failure_decision(call),
        r == OnFailure::AbortScan <==> call == ScanCall::ListArtists,
{
    match call {
        ScanCall::ListArtists => OnFailure::AbortScan,
        _ => OnFailure::SkipItem,
    }
}

// ── Songs ─────────────────────────────────────────────────────────────────────

/// The local artist a song is stored with: the artist its own upstream
/// artist id resolves to when that lookup finds one, else the artist of the
/// album being scanned.
pub fn song_artist(resolved: Option<i32>, album_artist: i32) -> (r: Option<i32>)
    ensures
        r == Some(
            match resolved {
                Some(a) => a,
                None => album_artist,
            },
        ),
{
    match resolved {
        Some(a) => Some(a),
        None => Some(album_artist),
    }
}

// ── Statistics ────────────────────────────────────────────────────────────────

/// The kinds of items a scan stores.
#[derive(Debug, Clone, Copy, PartialEq, Eq, Structural)]
pub enum ScanItem {
    Artist,
    Album,
    Song,
    PodcastChannel,
    PodcastEpisode,
    RadioStation,
}

/// Statistics collected during a scan.
#[derive(Debug, Clone, Copy)]
pub struct ScanStats {
    pub artists: usize,
    pub albums: usize,
    pub songs: usize,
    pub podcast_channels: usize,
    pub podcast_episodes: usize,
    pub radio_stations: usize,
}

impl Default for ScanStats {
    fn default() -> (r: Self)
        ensures
            r.artists == 0 && r.albums == 0 && r.songs == 0 && r.podcast_channels == 0
                && r.podcast_episodes == 0 && r.radio_stations == 0,
    {
        ScanStats {
            artists: 0,
            albums: 0,
            songs: 0,
            podcast_channels: 0,
            podcast_episodes: 0,
            radio_stations: 0,
        }
    }
}

impl ScanStats {
    /// The count of one kind of item.
    pub open spec fn count(&self, item: ScanItem) -> usize {
        match item {
            ScanItem::Artist => self.artists,
            ScanItem::Album => self.albums,
            ScanItem::Song => self.songs,
            ScanItem::PodcastChannel => self.podcast_channels,
            ScanItem::PodcastEpisode => self.podcast_episodes,
            ScanItem::RadioStation => self.radio_stations,
        }
    }

    /// Counts one more stored item of the given kind.
    pub fn record(&mut self, item: ScanItem)
        requires
            old(self).count(item) < usize::MAX,
        ensures
            final(self).count(item) == old(self).count(item) + 1,
            forall|other: ScanItem| other != item ==> final(self).count(other) == old(self).count(other),
    {
        match item {
            ScanItem::Artist => self.artists = self.artists + 1,
            ScanItem::Album => self.albums = self.albums + 1,
            ScanItem::Song => self.songs = self.songs + 1,
            ScanItem::PodcastChannel => self.podcast_channels = self.podcast_channels + 1,
            ScanItem::PodcastEpisode => self.podcast_episodes = self.podcast_episodes + 1,
            ScanItem::RadioStation => self.radio_stations = self.radio_stations + 1,
        }
    }
}


/// The statistics with one more item of the given kind.
pub open spec fn recorded(s: ScanStats, item: ScanItem) -> ScanStats {
    ScanStats {
        artists: if item == ScanItem::Artist { (s.artists + 1) as usize } else { s.artists },
        albums: if item == ScanItem::Album { (s.albums + 1) as usize } else { s.albums },
        songs: if item == ScanItem::Song { (s.songs + 1) as usize } else { s.songs },
        podcast_channels: if item == ScanItem::PodcastChannel {
            (s.podcast_channels + 1) as usize
        } else {
            s.podcast_channels
        },
        podcast_episodes: if item == ScanItem::PodcastEpisode {
            (s.podcast_episodes + 1) as usize
        } else {
            s.podcast_episodes
        },
        radio_stations: if item == ScanItem::RadioStation {
            (s.radio_stations + 1) as usize
        } else {
            s.radio_stations
        },
    }
}

// ── The scan walk ─────────────────────────────────────────────────────────────

/// Where a scan stands: the work it does next, with its place in the lists
/// fetched so far (`artist` of `artists`, `album` of `albums` of that artist,
/// and so on).
#[derive(Debug, Clone, Copy, PartialEq, Eq, Structural)]
pub enum ScanPos {
    /// Fetch the artist list.
    ListArtists,
    /// Store artist `artist`.
    Artist { artist: usize, artists: usize },
    /// Fetch the albums of artist `artist`.
    ArtistAlbums { artist: usize, artists: usize },
    /// Store album `album` of artist `artist`.
    Album { artist: usize, artists: usize, album: usize, albums: usize },
    /// Fetch the songs of that album.
    AlbumSongs { artist: usize, artists: usize, album: usize, albums: usize },
    /// Store song `song` of that album.
    Song { artist: usize, artists: usize, album: usize, albums: usize, song: usize, songs: usize },
    /// Fetch the podcast channels, with their episodes.
    ListPodcasts,
    /// Store channel `channel`.
    Channel { channel: usize, channels: usize },
    /// Store episode `episode` of that channel.
    Episode { channel: usize, channels: usize, episode: usize, episodes: usize },
    /// Fetch the internet radio stations.
    ListStations,
    /// Store station `station`.
    Station { station: usize, stations: usize },
    /// The scan is complete: mark the server scanned and report the counts.
    Finished,
    /// The scan ends with an error.
    Aborted,
}

/// What the caller of the walk reports back about the work it was given.
#[derive(Debug, Clone, Copy, PartialEq, Eq, Structural)]
pub enum ScanEvent {
    /// A fetch answered with `count` items.
    Listed { count: usize },
    /// A fetch failed.
    FetchFailed,
    /// An item was stored.
    Stored,
    /// A podcast channel was stored; it has `episodes` episodes.
    ChannelStored { episodes: usize },
    /// A database operation failed.
    DbFailed,
}

/// The work a scan asks its caller to do next.
#[derive(Debug, Clone, Copy, PartialEq, Eq, Structural)]
pub enum ScanAction {
    FetchArtists,
    StoreArtist { artist: usize },
    FetchArtist { artist: usize },
    StoreAlbum { artist: usize, album: usize },
    FetchAlbum { artist: usize, album: usize },
    StoreSong { artist: usize, album: usize, song: usize },
    FetchPodcasts,
    StoreChannel { channel: usize },
    StoreEpisode { channel: usize, episode: usize },
    FetchRadioStations,
    StoreStation { station: usize },
    Finish,
    Abort,
}

/// A scan in progress: where it stands and what it has counted.
#[derive(Debug, Clone, Copy)]
pub struct ScanState {
    pub pos: ScanPos,
    pub stats: ScanStats,
}

/// Every place in a position lies inside the list it belongs to.
pub open spec fn pos_in_range(p: ScanPos) -> bool {
    match p {
        ScanPos::Artist { artist, artists } => artist < artists,
        ScanPos::ArtistAlbums { artist, artists } => artist < artists,
        ScanPos::Album { artist, artists, album, albums } => artist < artists && album < albums,
        ScanPos::AlbumSongs { artist, artists, album, albums } => artist < artists && album
            < albums,
        ScanPos::Song { artist, artists, album, albums, song, songs } => artist < artists && album
            < albums && song < songs,
        ScanPos::Channel { channel, channels } => channel < channels,
        ScanPos::Episode { channel, channels, episode, episodes } => channel < channels && episode
            < episodes,
        ScanPos::Station { station, stations } => station < stations,
        _ => true,
    }
}

impl ScanState {
    pub open spec fn well_formed(&self) -> bool {
        pos_in_range(self.pos)
    }
}

/// The work of a position.
pub open spec fn action_of(p: ScanPos) -> ScanAction {
    match p {
        ScanPos::ListArtists => ScanAction::FetchArtists,
        ScanPos::Artist { artist, .. } => ScanAction::StoreArtist { artist },
        ScanPos::ArtistAlbums { artist, .. } => ScanAction::FetchArtist { artist },
        ScanPos::Album { artist, album, .. } => ScanAction::StoreAlbum { artist, album },
        ScanPos::AlbumSongs { artist, album, .. } => ScanAction::FetchAlbum { artist, album },
        ScanPos::Song { artist, album, song, .. } => ScanAction::StoreSong { artist, album, song },
        ScanPos::ListPodcasts => ScanAction::FetchPodcasts,
        ScanPos::Channel { channel, .. } => ScanAction::StoreChannel { channel },
        ScanPos::Episode { channel, episode, .. } => ScanAction::StoreEpisode { channel, episode },
        ScanPos::ListStations => ScanAction::FetchRadioStations,
        ScanPos::Station { station, .. } => ScanAction::StoreStation { station },
        ScanPos::Finished => ScanAction::Finish,
        ScanPos::Aborted => ScanAction::Abort,
    }
}

/// Artist `artist` of `artists`, or the podcasts once the artists are done.
pub open spec fn artist_or_podcasts(artist: int, artists: usize) -> ScanPos {
    if artist < artists {
        ScanPos::Artist { artist: artist as usize, artists }
    } else {
        ScanPos::ListPodcasts
    }
}

/// Album `album` of `albums` of that artist, or the next artist once its
/// albums are done.
pub open spec fn album_or_next_artist(
    artist: usize,
    artists: usize,
    album: int,
    albums: usize,
) -> ScanPos {
    if album < albums {
        ScanPos::Album { artist, artists, album: album as usize, albums }
    } else {
        artist_or_podcasts(artist + 1, artists)
    }
}

/// Channel `channel` of `channels`, or the radio stations once the channels
/// are done.
pub open spec fn channel_or_stations(channel: int, channels: usize) -> ScanPos {
    if channel < channels {
        ScanPos::Channel { channel: channel as usize, channels }
    } else {
        ScanPos::ListStations
    }
}

/// Station `station` of `stations`, or the end once the stations are done.
pub open spec fn station_or_finished(station: int, stations: usize) -> ScanPos {
    if station < stations {
        ScanPos::Station { station: station as usize, stations }
    } else {
        ScanPos::Finished
    }
}

/// Where a failed fetch leads: the end of the scan, or `skip_to` when the
/// scan skips what the call would have fetched.
pub open spec fn after_failure(call: ScanCall, skip_to: ScanPos) -> ScanPos {
    match failure_decision(call) {
        OnFailure::AbortScan => ScanPos::Aborted,
        OnFailure::SkipItem => skip_to,
    }
}

/// The position a scan moves to when `ev` answers the work of `p`.  A failed
/// database operation ends the scan; the end of a scan stays; an event that
/// does not answer the work of `p` changes nothing.
pub open spec fn next_pos(p: ScanPos, ev: ScanEvent) -> ScanPos {
    if p == ScanPos::Finished || p == ScanPos::Aborted {
        p
    } else if ev == ScanEvent::DbFailed {
        ScanPos::Aborted
    } else {
        match (p, ev) {
            (ScanPos::ListArtists, ScanEvent::Listed { count }) => artist_or_podcasts(0, count),
            (ScanPos::ListArtists, ScanEvent::FetchFailed) => after_failure(
                ScanCall::ListArtists,
                ScanPos::ListPodcasts,
            ),
            (ScanPos::Artist { artist, artists }, ScanEvent::Stored) => ScanPos::ArtistAlbums {
                artist,
                artists,
            },
            (ScanPos::ArtistAlbums { artist, artists }, ScanEvent::Listed { count }) =>
                album_or_next_artist(artist, artists, 0, count),
            (ScanPos::ArtistAlbums { artist, artists }, ScanEvent::FetchFailed) => after_failure(
                ScanCall::GetArtist,
                artist_or_podcasts(artist + 1, artists),
            ),
            (ScanPos::Album { artist, artists, album, albums }, ScanEvent::Stored) =>
                ScanPos::AlbumSongs { artist, artists, album, albums },
            (ScanPos::AlbumSongs { artist, artists, album, albums }, ScanEvent::Listed { count }) =>
                if 0 < count {
                ScanPos::Song { artist, artists, album, albums, song: 0, songs: count }
            } else {
                album_or_next_artist(artist, artists, album + 1, albums)
            },
            (ScanPos::AlbumSongs { artist, artists, album, albums }, ScanEvent::FetchFailed) =>
                after_failure(
                ScanCall::GetAlbum,
                album_or_next_artist(artist, artists, album + 1, albums),
            ),
            (ScanPos::Song { artist, artists, album, albums, song, songs }, ScanEvent::Stored) =>
                if song + 1 < songs {
                ScanPos::Song { artist, artists, album, albums, song: (song + 1) as usize, songs }
            } else {
                album_or_next_artist(artist, artists, album + 1, albums)
            },
            (ScanPos::ListPodcasts, ScanEvent::Listed { count }) => channel_or_stations(0, count),
            (ScanPos::ListPodcasts, ScanEvent::FetchFailed) => after_failure(
                ScanCall::GetPodcasts,
                ScanPos::ListStations,
            ),
            (ScanPos::Channel { channel, channels }, ScanEvent::ChannelStored { episodes }) =>
                if 0 < episodes {
                ScanPos::Episode { channel, channels, episode: 0, episodes }
            } else {
                channel_or_stations(channel + 1, channels)
            },
            (ScanPos::Episode { channel, channels, episode, episodes }, ScanEvent::Stored) =>
                if episode + 1 < episodes {
                ScanPos::Episode { channel, channels, episode: (episode + 1) as usize, episodes }
            } else {
                channel_or_stations(channel + 1, channels)
            },
            (ScanPos::ListStations, ScanEvent::Listed { count }) => station_or_finished(0, count),
            (ScanPos::ListStations, ScanEvent::FetchFailed) => after_failure(
                ScanCall::GetRadioStations,
                ScanPos::Finished,
            ),
            (ScanPos::Station { station, stations }, ScanEvent::Stored) => station_or_finished(
                station + 1,
                stations,
            ),
            _ => p,
        }
    }
}

/// The kind of item that `ev` reports stored at `p`, if it reports one.
pub open spec fn stored_item(p: ScanPos, ev: ScanEvent) -> Option<ScanItem> {
    match (p, ev) {
        (ScanPos::Artist { .. }, ScanEvent::Stored) => Some(ScanItem::Artist),
        (ScanPos::Album { .. }, ScanEvent::Stored) => Some(ScanItem::Album),
        (ScanPos::Song { .. }, ScanEvent::Stored) => Some(ScanItem::Song),
        (ScanPos::Channel { .. }, ScanEvent::ChannelStored { .. }) => Some(ScanItem::PodcastChannel),
        (ScanPos::Episode { .. }, ScanEvent::Stored) => Some(ScanItem::PodcastEpisode),
        (ScanPos::Station { .. }, ScanEvent::Stored) => Some(ScanItem::RadioStation),
        _ => None,
    }
}

/// The scan after `ev` answers the work of `st`: its new position, and its
/// counts with the item that `ev` reports stored.
pub open spec fn scan_next_spec(st: ScanState, ev: ScanEvent) -> ScanState {
    ScanState {
        pos: next_pos(st.pos, ev),
        stats: match stored_item(st.pos, ev) {
            Some(item) => recorded(st.stats, item),
            None => st.stats,
        },
    }
}

/// Whether counting the item that `ev` reports stored stays within `usize`.
pub open spec fn scan_next_defined(st: ScanState, ev: ScanEvent) -> bool {
    stored_item(st.pos, ev) matches Some(item) ==> st.stats.count(item) < usize::MAX
}

fn action_for(p: ScanPos) -> (r: ScanAction)
    ensures
        r == action_of(p),
{
    match p {
        ScanPos::ListArtists => ScanAction::FetchArtists,
        ScanPos::Artist { artist, .. } => ScanAction::StoreArtist { artist },
        ScanPos::ArtistAlbums { artist, .. } => ScanAction::FetchArtist { artist },
        ScanPos::Album { artist, album, .. } => ScanAction::StoreAlbum { artist, album },
        ScanPos::AlbumSongs { artist, album, .. } => ScanAction::FetchAlbum { artist, album },
        ScanPos::Song { artist, album, song, .. } => ScanAction::StoreSong { artist, album, song },
        ScanPos::ListPodcasts => ScanAction::FetchPodcasts,
        ScanPos::Channel { channel, .. } => ScanAction::StoreChannel { channel },
        ScanPos::Episode { channel, episode, .. } => ScanAction::StoreEpisode { channel, episode },
        ScanPos::ListStations => ScanAction::FetchRadioStations,
        ScanPos::Station { station, .. } => ScanAction::StoreStation { station },
        ScanPos::Finished => ScanAction::Finish,
        ScanPos::Aborted => ScanAction::Abort,
    }
}

/// The kind of item that `ev` reports stored at `p`, if it reports one.
pub fn scan_stored_item(p: ScanPos, ev: ScanEvent) -> (r: Option<ScanItem>)
    ensures
        r == stored_item(p, ev),
{
    match (p, ev) {
        (ScanPos::Artist { .. }, ScanEvent::Stored) => Some(ScanItem::Artist),
        (ScanPos::Album { .. }, ScanEvent::Stored) => Some(ScanItem::Album),
        (ScanPos::Song { .. }, ScanEvent::Stored) => Some(ScanItem::Song),
        (ScanPos::Channel { .. }, ScanEvent::ChannelStored { .. }) => Some(ScanItem::PodcastChannel),
        (ScanPos::Episode { .. }, ScanEvent::Stored) => Some(ScanItem::PodcastEpisode),
        (ScanPos::Station { .. }, ScanEvent::Stored) => Some(ScanItem::RadioStation),
        _ => None,
    }
}

fn failed_to(call: ScanCall, skip_to: ScanPos) -> (r: ScanPos)
    ensures
        r == after_failure(call, skip_to),
{
    match on_upstream_failure(call) {
        OnFailure::AbortScan => ScanPos::Aborted,
        OnFailure::SkipItem => skip_to,
    }
}

fn artist_or_podcasts_exec(artist: usize, artists: usize) -> (r: ScanPos)
    ensures
        r == artist_or_podcasts(artist as int, artists),
{
    if artist < artists {
        ScanPos::Artist { artist, artists }
    } else {
        ScanPos::ListPodcasts
    }
}

fn album_or_next_artist_exec(artist: usize, artists: usize, album: usize, albums: usize) -> (r:
    ScanPos)
    requires
        artist < artists,
    ensures
        r == album_or_next_artist(artist, artists, album as int, albums),
{
    if album < albums {
        ScanPos::Album { artist, artists, album, albums }
    } else {
        artist_or_podcasts_exec(artist + 1, artists)
    }
}

fn channel_or_stations_exec(channel: usize, channels: usize) -> (r: ScanPos)
    ensures
        r == channel_or_stations(channel as int, channels),
{
    if channel < channels {
        ScanPos::Channel { channel, channels }
    } else {
        ScanPos::ListStations
    }
}

fn station_or_finished_exec(station: usize, stations: usize) -> (r: ScanPos)
    ensures
        r == station_or_finished(station as int, stations),
{
    if station < stations {
        ScanPos::Station { station, stations }
    } else {
        ScanPos::Finished
    }
}

fn next_position(p: ScanPos, ev: ScanEvent) -> (r: ScanPos)
    requires
        pos_in_range(p),
    ensures
        r == next_pos(p, ev),
{
    if p == ScanPos::Finished || p == ScanPos::Aborted {
        return p;
    }
    if ev == ScanEvent::DbFailed {
        return ScanPos::Aborted;
    }
    match (p, ev) {
        (ScanPos::ListArtists, ScanEvent::Listed { count }) => artist_or_podcasts_exec(0, count),
        (ScanPos::ListArtists, ScanEvent::FetchFailed) => failed_to(
            ScanCall::ListArtists,
            ScanPos::ListPodcasts,
        ),
        (ScanPos::Artist { artist, artists }, ScanEvent::Stored) => ScanPos::ArtistAlbums {
            artist,
            artists,
        },
        (ScanPos::ArtistAlbums { artist, artists }, ScanEvent::Listed { count }) =>
            album_or_next_artist_exec(artist, artists, 0, count),
        (ScanPos::ArtistAlbums { artist, artists }, ScanEvent::FetchFailed) => {
            let skip_to = artist_or_podcasts_exec(artist + 1, artists);
            failed_to(ScanCall::GetArtist, skip_to)
        },
        (ScanPos::Album { artist, artists, album, albums }, ScanEvent::Stored) =>
            ScanPos::AlbumSongs { artist, artists, album, albums },
        (ScanPos::AlbumSongs { artist, artists, album, albums }, ScanEvent::Listed { count }) => {
            if 0 < count {
                ScanPos::Song { artist, artists, album, albums, song: 0, songs: count }
            } else {
                album_or_next_artist_exec(artist, artists, album + 1, albums)
            }
        },
        (ScanPos::AlbumSongs { artist, artists, album, albums }, ScanEvent::FetchFailed) => {
            let skip_to = album_or_next_artist_exec(artist, artists, album + 1, albums);
            failed_to(ScanCall::GetAlbum, skip_to)
        },
        (ScanPos::Song { artist, artists, album, albums, song, songs }, ScanEvent::Stored) => {
            if song + 1 < songs {
                ScanPos::Song { artist, artists, album, albums, song: song + 1, songs }
            } else {
                album_or_next_artist_exec(artist, artists, album + 1, albums)
            }
        },
        (ScanPos::ListPodcasts, ScanEvent::Listed { count }) => channel_or_stations_exec(0, count),
        (ScanPos::ListPodcasts, ScanEvent::FetchFailed) => failed_to(
            ScanCall::GetPodcasts,
            ScanPos::ListStations,
        ),
        (ScanPos::Channel { channel, channels }, ScanEvent::ChannelStored { episodes }) => {
            if 0 < episodes {
                ScanPos::Episode { channel, channels, episode: 0, episodes }
            } else {
                channel_or_stations_exec(channel + 1, channels)
            }
        },
        (ScanPos::Episode { channel, channels, episode, episodes }, ScanEvent::Stored) => {
            if episode + 1 < episodes {
                ScanPos::Episode { channel, channels, episode: episode + 1, episodes }
            } else {
                channel_or_stations_exec(channel + 1, channels)
            }
        },
        (ScanPos::ListStations, ScanEvent::Listed { count }) => station_or_finished_exec(0, count),
        (ScanPos::ListStations, ScanEvent::FetchFailed) => failed_to(
            ScanCall::GetRadioStations,
            ScanPos::Finished,
        ),
        (ScanPos::Station { station, stations }, ScanEvent::Stored) => station_or_finished_exec(
            station + 1,
            stations,
        ),
        _ => p,
    }
}

/// The start of a scan: nothing counted yet, and the artist list to fetch.
pub fn scan_start() -> (r: (ScanState, ScanAction))
    ensures
        r.0.pos == ScanPos::ListArtists,
        forall|item: ScanItem| r.0.stats.count(item) == 0,
        r.1 == ScanAction::FetchArtists,
        r.0.well_formed(),
{
    let stats = ScanStats::default();
    (ScanState { pos: ScanPos::ListArtists, stats }, ScanAction::FetchArtists)
}

/// One step of a scan: `event` answers the work `state` asked for; the result
/// is the new state and the work it asks for next.
pub fn scan_next(state: ScanState, event: ScanEvent) -> (r: (ScanState, ScanAction))
    requires
        state.well_formed(),
        scan_next_defined(state, event),
    ensures
        r.0 == scan_next_spec(state, event),
        r.1 == action_of(r.0.pos),
        r.0.well_formed(),
{
    let mut stats = state.stats;
    match scan_stored_item(state.pos, event) {
        Some(item) => {
            stats.record(item);
            proof {
                lemma_recorded(state.stats, stats, item);
            }
        },
        None => {},
    }
    let pos = next_position(state.pos, event);
    let next = ScanState { pos, stats };
    proof {
        lemma_next_pos_in_range(state.pos, event);
    }
    (next, action_for(pos))
}

proof fn lemma_recorded(before: ScanStats, after: ScanStats, item: ScanItem)
    requires
        before.count(item) < usize::MAX,
        after.count(item) == before.count(item) + 1,
        forall|other: ScanItem| other != item ==> after.count(other) == before.count(other),
    ensures
        after == recorded(before, item),
{
    assert(item == ScanItem::Artist || after.count(ScanItem::Artist) == before.count(ScanItem::Artist));
    assert(item == ScanItem::Album || after.count(ScanItem::Album) == before.count(ScanItem::Album));
    assert(item == ScanItem::Song || after.count(ScanItem::Song) == before.count(ScanItem::Song));
    assert(item == ScanItem::PodcastChannel || after.count(ScanItem::PodcastChannel) == before.count(
        ScanItem::PodcastChannel,
    ));
    assert(item == ScanItem::PodcastEpisode || after.count(ScanItem::PodcastEpisode) == before.count(
        ScanItem::PodcastEpisode,
    ));
    assert(item == ScanItem::RadioStation || after.count(ScanItem::RadioStation) == before.count(
        ScanItem::RadioStation,
    ));
}

proof fn lemma_next_pos_in_range(p: ScanPos, ev: ScanEvent)
    requires
        pos_in_range(p),
    ensures
        pos_in_range(next_pos(p, ev)),
{
}

// ── Laws of the walk ──────────────────────────────────────────────────────────

/// Every step keeps each place inside its list.
pub proof fn law_scan_step_stays_in_range(st: ScanState, ev: ScanEvent)
    requires
        st.well_formed(),
    ensures
        scan_next_spec(st, ev).well_formed(),
{
    lemma_next_pos_in_range(st.pos, ev);
}

/// Counts never go down, and a step counts at most one item: the one its
/// event reports stored.
pub proof fn law_scan_counts_one_item_per_store(st: ScanState, ev: ScanEvent, item: ScanItem)
    requires
        scan_next_defined(st, ev),
    ensures
        scan_next_spec(st, ev).stats.count(item) == st.stats.count(item) + (if stored_item(
            st.pos,
            ev,
        ) == Some(item) {
            1int
        } else {
            0int
        }),
{
}

/// A failed artist list ends the scan; any other failed fetch skips what it
/// would have fetched and never ends the scan.
pub proof fn law_scan_failures(st: ScanState)
    requires
        st.well_formed(),
    ensures
        st.pos == ScanPos::ListArtists ==> next_pos(st.pos, ScanEvent::FetchFailed)
            == ScanPos::Aborted,
        st.pos != ScanPos::ListArtists && st.pos != ScanPos::Aborted ==> next_pos(
            st.pos,
            ScanEvent::FetchFailed,
        ) != ScanPos::Aborted,
{
}

/// A failed `getArtist` skips exactly that artist's albums: the scan goes on
/// with the next artist, or with the podcasts after the last one.
pub proof fn law_scan_skips_failed_artist(artist: usize, artists: usize)
    requires
        artist < artists,
    ensures
        next_pos(ScanPos::ArtistAlbums { artist, artists }, ScanEvent::FetchFailed) == (if artist
            + 1 < artists {
            ScanPos::Artist { artist: (artist + 1) as usize, artists }
        } else {
            ScanPos::ListPodcasts
        }),
{
}

/// The end of a scan, complete or aborted, stays the end whatever is reported.
pub proof fn law_scan_end_is_final(st: ScanState, ev: ScanEvent)
    requires
        st.pos == ScanPos::Finished || st.pos == ScanPos::Aborted,
    ensures
        scan_next_spec(st, ev).pos == st.pos,
        scan_next_spec(st, ev).stats == st.stats,
{
}

/// A failed database operation ends a scan in progress.
pub proof fn law_scan_db_failure_aborts(st: ScanState)
    requires
        st.pos != ScanPos::Finished,
    ensures
        next_pos(st.pos, ScanEvent::DbFailed) == ScanPos::Aborted,
{
}

/// The scan after `k` items in a row are reported stored.
pub open spec fn after_stores(st: ScanState, k: nat) -> ScanState
    decreases k,
{
    if k == 0 {
        st
    } else {
        after_stores(scan_next_spec(st, ScanEvent::Stored), (k - 1) as nat)
    }
}

/// The counts of `before` with `k` more items of kind `item`.
pub open spec fn counts_added(before: ScanStats, after: ScanStats, item: ScanItem, k: int) -> bool {
    forall|other: ScanItem|
        #[trigger] after.count(other) == before.count(other) + (if other == item {
            k
        } else {
            0
        })
}

proof fn lemma_songs_stored(
    artist: usize,
    artists: usize,
    album: usize,
    albums: usize,
    song: usize,
    songs: usize,
    stats: ScanStats,
)
    requires
        artist < artists,
        album < albums,
        song < songs,
        stats.songs + (songs - song) <= usize::MAX,
    ensures
        ({
            let st = ScanState {
                pos: ScanPos::Song { artist, artists, album, albums, song, songs },
                stats,
            };
            let end = after_stores(st, (songs - song) as nat);
            &&& end.pos == album_or_next_artist(artist, artists, album + 1, albums)
            &&& counts_added(stats, end.stats, ScanItem::Song, songs - song)
        }),
    decreases songs - song,
{
    let st = ScanState { pos: ScanPos::Song { artist, artists, album, albums, song, songs }, stats };
    let next = scan_next_spec(st, ScanEvent::Stored);
    assert(counts_added(stats, next.stats, ScanItem::Song, 1));
    if song + 1 < songs {
        lemma_songs_stored(artist, artists, album, albums, (song + 1) as usize, songs, next.stats);
        let end = after_stores(next, (songs - song - 1) as nat);
        assert(after_stores(st, (songs - song) as nat) == end);
        assert(counts_added(stats, end.stats, ScanItem::Song, songs - song));
    } else {
        assert(after_stores(next, 0) == next);
        assert(after_stores(st, (songs - song) as nat) == next);
    }
}

/// An album's songs are walked in full: once its song list of `count` songs
/// is fetched, `count` stored songs later the scan is at the next album (or
/// the next artist after the last album), with exactly `count` more songs
/// counted and nothing else counted.
pub proof fn law_album_songs_walked(
    artist: usize,
    artists: usize,
    album: usize,
    albums: usize,
    count: usize,
    stats: ScanStats,
)
    requires
        artist < artists,
        album < albums,
        stats.songs + count <= usize::MAX,
    ensures
        ({
            let st = ScanState { pos: ScanPos::AlbumSongs { artist, artists, album, albums }, stats };
            let end = after_stores(scan_next_spec(st, ScanEvent::Listed { count }), count as nat);
            &&& end.pos == album_or_next_artist(artist, artists, album + 1, albums)
            &&& counts_added(stats, end.stats, ScanItem::Song, count as int)
        }),
{
    let st = ScanState { pos: ScanPos::AlbumSongs { artist, artists, album, albums }, stats };
    let listed = scan_next_spec(st, ScanEvent::Listed { count });
    if count > 0 {
        lemma_songs_stored(artist, artists, album, albums, 0, count, stats);
    } else {
        assert(after_stores(listed, 0) == listed);
    }
}

proof fn lemma_stations_stored(station: usize, stations: usize, stats: ScanStats)
    requires
        station < stations,
        stats.radio_stations + (stations - station) <= usize::MAX,
    ensures
        ({
            let st = ScanState { pos: ScanPos::Station { station, stations }, stats };
            let end = after_stores(st, (stations - station) as nat);
            &&& end.pos == ScanPos::Finished
            &&& counts_added(stats, end.stats, ScanItem::RadioStation, stations - station)
        }),
    decreases stations - station,
{
    let st = ScanState { pos: ScanPos::Station { station, stations }, stats };
    let next = scan_next_spec(st, ScanEvent::Stored);
    assert(counts_added(stats, next.stats, ScanItem::RadioStation, 1));
    if station + 1 < stations {
        lemma_stations_stored((station + 1) as usize, stations, next.stats);
        let end = after_stores(next, (stations - station - 1) as nat);
        assert(after_stores(st, (stations - station) as nat) == end);
        assert(counts_added(stats, end.stats, ScanItem::RadioStation, stations - station));
    } else {
        assert(after_stores(next, 0) == next);
        assert(after_stores(st, (stations - station) as nat) == next);
    }
}

/// The radio stations are walked in full and end the scan: once the list of
/// `count` stations is fetched, `count` stored stations later the scan is
/// complete, with exactly `count` more stations counted.
pub proof fn law_stations_walked(count: usize, stats: ScanStats)
    requires
        stats.radio_stations + count <= usize::MAX,
    ensures
        ({
            let st = ScanState { pos: ScanPos::ListStations, stats };
            let end = after_stores(scan_next_spec(st, ScanEvent::Listed { count }), count as nat);
            &&& end.pos == ScanPos::Finished
            &&& counts_added(stats, end.stats, ScanItem::RadioStation, count as int)
        }),
{
    let st = ScanState { pos: ScanPos::ListStations, stats };
    let listed = scan_next_spec(st, ScanEvent::Listed { count });
    if count > 0 {
        lemma_stations_stored(0, count, stats);
    } else {
        assert(after_stores(listed, 0) == listed);
    }
}

proof fn lemma_episodes_stored(
    channel: usize,
    channels: usize,
    episode: usize,
    episodes: usize,
    stats: ScanStats,
)
    requires
        channel < channels,
        episode < episodes,
        stats.podcast_episodes + (episodes - episode) <= usize::MAX,
    ensures
        ({
            let st = ScanState { pos: ScanPos::Episode { channel, channels, episode, episodes }, stats };
            let end = after_stores(st, (episodes - episode) as nat);
            &&& end.pos == channel_or_stations(channel + 1, channels)
            &&& counts_added(stats, end.stats, ScanItem::PodcastEpisode, episodes - episode)
        }),
    decreases episodes - episode,
{
    let st = ScanState { pos: ScanPos::Episode { channel, channels, episode, episodes }, stats };
    let next = scan_next_spec(st, ScanEvent::Stored);
    assert(counts_added(stats, next.stats, ScanItem::PodcastEpisode, 1));
    if episode + 1 < episodes {
        lemma_episodes_stored(channel, channels, (episode + 1) as usize, episodes, next.stats);
        let end = after_stores(next, (episodes - episode - 1) as nat);
        assert(after_stores(st, (episodes - episode) as nat) == end);
        assert(counts_added(stats, end.stats, ScanItem::PodcastEpisode, episodes - episode));
    } else {
        assert(after_stores(next, 0) == next);
        assert(after_stores(st, (episodes - episode) as nat) == next);
    }
}

/// A channel is walked in full: once it is stored with `episodes` episodes,
/// `episodes` stored episodes later the scan is at the next channel (or the
/// radio stations after the last one), with the channel and exactly its
/// episodes counted.
pub proof fn law_channel_walked(channel: usize, channels: usize, episodes: usize, stats: ScanStats)
    requires
        channel < channels,
        stats.podcast_channels < usize::MAX,
        stats.podcast_episodes + episodes <= usize::MAX,
    ensures
        ({
            let st = ScanState { pos: ScanPos::Channel { channel, channels }, stats };
            let stored = scan_next_spec(st, ScanEvent::ChannelStored { episodes });
            let end = after_stores(stored, episodes as nat);
            &&& end.pos == channel_or_stations(channel + 1, channels)
            &&& counts_added(stats, stored.stats, ScanItem::PodcastChannel, 1)
            &&& counts_added(stored.stats, end.stats, ScanItem::PodcastEpisode, episodes as int)
        }),
{
    let st = ScanState { pos: ScanPos::Channel { channel, channels }, stats };
    let stored = scan_next_spec(st, ScanEvent::ChannelStored { episodes });
    assert(counts_added(stats, stored.stats, ScanItem::PodcastChannel, 1));
    if episodes > 0 {
        lemma_episodes_stored(channel, channels, 0, episodes, stored.stats);
    } else {
        assert(after_stores(stored, 0) == stored);
    }
}

// ── The walk over a whole library ─────────────────────────────────────────────

/// The scan after the events `evs`, one after the other.
pub open spec fn run(st: ScanState, evs: Seq<ScanEvent>) -> ScanState
    decreases evs.len(),
{
    if evs.len() == 0 {
        st
    } else {
        run(scan_next_spec(st, evs[0]), evs.drop_first())
    }
}

/// `k` items reported stored, one after the other.
pub open spec fn stored_events(k: nat) -> Seq<ScanEvent> {
    Seq::new(k, |i: int| ScanEvent::Stored)
}

/// The sum of the numbers in `s`.
pub open spec fn sum_of(s: Seq<usize>) -> int
    decreases s.len(),
{
    if s.len() == 0 {
        0
    } else {
        s[0] + sum_of(s.drop_first())
    }
}

/// What a scan is told about one album with `songs` songs, none failing: the
/// album is stored, its song list is fetched, and each song is stored.
pub open spec fn album_events(songs: usize) -> Seq<ScanEvent> {
    seq![ScanEvent::Stored, ScanEvent::Listed { count: songs }] + stored_events(songs as nat)
}

/// The events of the albums whose song counts are `albums`, in order.
pub open spec fn albums_events(albums: Seq<usize>) -> Seq<ScanEvent>
    decreases albums.len(),
{
    if albums.len() == 0 {
        Seq::empty()
    } else {
        album_events(albums[0]) + albums_events(albums.drop_first())
    }
}

/// The events of one artist whose albums have the song counts `albums`: the
/// artist is stored, its album list is fetched, and each album is walked.
pub open spec fn artist_events(albums: Seq<usize>) -> Seq<ScanEvent> {
    seq![ScanEvent::Stored, ScanEvent::Listed { count: albums.len() as usize }] + albums_events(
        albums,
    )
}

/// The events of the artists of `library` (for each artist, the song counts
/// of its albums), in order.
pub open spec fn artists_events(library: Seq<Seq<usize>>) -> Seq<ScanEvent>
    decreases library.len(),
{
    if library.len() == 0 {
        Seq::empty()
    } else {
        artist_events(library[0]) + artists_events(library.drop_first())
    }
}

/// The events of the podcast channels with the episode counts `channels`:
/// each channel is stored, then each of its episodes.
pub open spec fn channels_events(channels: Seq<usize>) -> Seq<ScanEvent>
    decreases channels.len(),
{
    if channels.len() == 0 {
        Seq::empty()
    } else {
        seq![ScanEvent::ChannelStored { episodes: channels[0] }] + stored_events(
            channels[0] as nat,
        ) + channels_events(channels.drop_first())
    }
}

/// What a scan is told about a whole upstream library when no call fails:
/// the artists of `library` with their albums and songs, the podcast
/// channels with the episode counts `channels`, and `stations` radio stations.
pub open spec fn library_events(
    library: Seq<Seq<usize>>,
    channels: Seq<usize>,
    stations: usize,
) -> Seq<ScanEvent> {
    seq![ScanEvent::Listed { count: library.len() as usize }] + artists_events(library) + seq![
        ScanEvent::Listed { count: channels.len() as usize },
    ] + channels_events(channels) + seq![ScanEvent::Listed { count: stations }] + stored_events(
        stations as nat,
    )
}

/// The number of albums of `library`.
pub open spec fn album_total(library: Seq<Seq<usize>>) -> int
    decreases library.len(),
{
    if library.len() == 0 {
        0
    } else {
        library[0].len() + album_total(library.drop_first())
    }
}

/// The number of songs of `library`.
pub open spec fn song_total(library: Seq<Seq<usize>>) -> int
    decreases library.len(),
{
    if library.len() == 0 {
        0
    } else {
        sum_of(library[0]) + song_total(library.drop_first())
    }
}

/// The counts of `after` are those of `before` plus the given numbers.
pub open spec fn stats_grown(
    before: ScanStats,
    after: ScanStats,
    artists: int,
    albums: int,
    songs: int,
    channels: int,
    episodes: int,
    stations: int,
) -> bool {
    &&& after.artists == before.artists + artists
    &&& after.albums == before.albums + albums
    &&& after.songs == before.songs + songs
    &&& after.podcast_channels == before.podcast_channels + channels
    &&& after.podcast_episodes == before.podcast_episodes + episodes
    &&& after.radio_stations == before.radio_stations + stations
}

proof fn lemma_counts_fields(before: ScanStats, after: ScanStats, item: ScanItem, k: int)
    requires
        counts_added(before, after, item, k),
    ensures
        stats_grown(
            before,
            after,
            if item == ScanItem::Artist { k } else { 0 },
            if item == ScanItem::Album { k } else { 0 },
            if item == ScanItem::Song { k } else { 0 },
            if item == ScanItem::PodcastChannel { k } else { 0 },
            if item == ScanItem::PodcastEpisode { k } else { 0 },
            if item == ScanItem::RadioStation { k } else { 0 },
        ),
{
    assert(after.count(ScanItem::Artist) == before.count(ScanItem::Artist) + (if ScanItem::Artist
        == item { k } else { 0 }));
    assert(after.count(ScanItem::Album) == before.count(ScanItem::Album) + (if ScanItem::Album
        == item { k } else { 0 }));
    assert(after.count(ScanItem::Song) == before.count(ScanItem::Song) + (if ScanItem::Song
        == item { k } else { 0 }));
    assert(after.count(ScanItem::PodcastChannel) == before.count(ScanItem::PodcastChannel) + (
    if ScanItem::PodcastChannel == item { k } else { 0 }));
    assert(after.count(ScanItem::PodcastEpisode) == before.count(ScanItem::PodcastEpisode) + (
    if ScanItem::PodcastEpisode == item { k } else { 0 }));
    assert(after.count(ScanItem::RadioStation) == before.count(ScanItem::RadioStation) + (
    if ScanItem::RadioStation == item { k } else { 0 }));
}

proof fn lemma_run_concat(st: ScanState, a: Seq<ScanEvent>, b: Seq<ScanEvent>)
    ensures
        run(st, a + b) == run(run(st, a), b),
    decreases a.len(),
{
    if a.len() == 0 {
        assert(a + b =~= b);
    } else {
        assert((a + b).drop_first() =~= a.drop_first() + b);
        assert((a + b)[0] == a[0]);
        lemma_run_concat(scan_next_spec(st, a[0]), a.drop_first(), b);
    }
}

proof fn lemma_run_one(st: ScanState, e: ScanEvent, rest: Seq<ScanEvent>)
    ensures
        run(st, seq![e] + rest) == run(scan_next_spec(st, e), rest),
{
    assert((seq![e] + rest).drop_first() =~= rest);
    assert((seq![e] + rest)[0] == e);
}

proof fn lemma_run_stores(st: ScanState, k: nat)
    ensures
        run(st, stored_events(k)) == after_stores(st, k),
    decreases k,
{
    if k > 0 {
        assert(stored_events(k).drop_first() =~= stored_events((k - 1) as nat));
        assert(stored_events(k)[0] == ScanEvent::Stored);
        lemma_run_stores(scan_next_spec(st, ScanEvent::Stored), (k - 1) as nat);
    } else {
        assert(stored_events(k) =~= Seq::<ScanEvent>::empty());
    }
}

proof fn lemma_albums_walked(
    artist: usize,
    artists: usize,
    album: usize,
    albums: usize,
    rest: Seq<usize>,
    st: ScanState,
)
    requires
        artist < artists,
        album <= albums,
        rest.len() == albums - album,
        st.pos == album_or_next_artist(artist, artists, album as int, albums),
        st.stats.albums + rest.len() <= usize::MAX,
        st.stats.songs + sum_of(rest) <= usize::MAX,
    ensures
        run(st, albums_events(rest)).pos == artist_or_podcasts(artist + 1, artists),
        stats_grown(st.stats, run(st, albums_events(rest)).stats, 0, rest.len() as int, sum_of(rest), 0, 0, 0),
    decreases rest.len(),
{
    if rest.len() == 0 {
        assert(albums_events(rest) =~= Seq::<ScanEvent>::empty());
    } else {
        let k = rest[0];
        let stored = scan_next_spec(st, ScanEvent::Stored);
        assert(stored.pos == ScanPos::AlbumSongs { artist, artists, album, albums });
        assert(counts_added(st.stats, stored.stats, ScanItem::Album, 1));
        lemma_counts_fields(st.stats, stored.stats, ScanItem::Album, 1);
        lemma_sum_nonneg(rest.drop_first());
        law_album_songs_walked(artist, artists, album, albums, k, stored.stats);
        let listed = scan_next_spec(stored, ScanEvent::Listed { count: k });
        let done = after_stores(listed, k as nat);
        lemma_counts_fields(stored.stats, done.stats, ScanItem::Song, k as int);
        // The events of this album bring the scan to `done`.
        lemma_run_one(st, ScanEvent::Stored, seq![ScanEvent::Listed { count: k }] + stored_events(
            k as nat,
        ));
        assert(album_events(k) =~= seq![ScanEvent::Stored] + (seq![ScanEvent::Listed { count: k }]
            + stored_events(k as nat)));
        lemma_run_one(stored, ScanEvent::Listed { count: k }, stored_events(k as nat));
        lemma_run_stores(listed, k as nat);
        assert(run(st, album_events(k)) == done);
        lemma_run_concat(st, album_events(k), albums_events(rest.drop_first()));
        lemma_albums_walked(artist, artists, (album + 1) as usize, albums, rest.drop_first(), done);
    }
}

proof fn lemma_artists_walked(artist: usize, artists: usize, rest: Seq<Seq<usize>>, st: ScanState)
    requires
        artist <= artists,
        rest.len() == artists - artist,
        forall|i: int| 0 <= i < rest.len() ==> (#[trigger] rest[i]).len() <= usize::MAX,
        st.pos == artist_or_podcasts(artist as int, artists),
        st.stats.artists + rest.len() <= usize::MAX,
        st.stats.albums + album_total(rest) <= usize::MAX,
        st.stats.songs + song_total(rest) <= usize::MAX,
    ensures
        run(st, artists_events(rest)).pos == ScanPos::ListPodcasts,
        stats_grown(
            st.stats,
            run(st, artists_events(rest)).stats,
            rest.len() as int,
            album_total(rest),
            song_total(rest),
            0,
            0,
            0,
        ),
    decreases rest.len(),
{
    if rest.len() == 0 {
        assert(artists_events(rest) =~= Seq::<ScanEvent>::empty());
    } else {
        let ks = rest[0];
        assert(ks.len() <= usize::MAX);
        let m = ks.len() as usize;
        let stored = scan_next_spec(st, ScanEvent::Stored);
        assert(stored.pos == ScanPos::ArtistAlbums { artist, artists });
        assert(counts_added(st.stats, stored.stats, ScanItem::Artist, 1));
        lemma_counts_fields(st.stats, stored.stats, ScanItem::Artist, 1);
        let listed = scan_next_spec(stored, ScanEvent::Listed { count: m });
        assert(listed.stats == stored.stats);
        assert(listed.pos == album_or_next_artist(artist, artists, 0, m));
        assert(sum_of(ks) >= 0) by {
            lemma_sum_nonneg(ks);
        }
        lemma_totals_nonneg(rest.drop_first());
        lemma_albums_walked(artist, artists, 0, m, ks, listed);
        let done = run(listed, albums_events(ks));
        lemma_run_one(st, ScanEvent::Stored, seq![ScanEvent::Listed { count: m }] + albums_events(
            ks,
        ));
        assert(artist_events(ks) =~= seq![ScanEvent::Stored] + (seq![ScanEvent::Listed { count: m }]
            + albums_events(ks)));
        lemma_run_one(stored, ScanEvent::Listed { count: m }, albums_events(ks));
        assert(run(st, artist_events(ks)) == done);
        lemma_run_concat(st, artist_events(ks), artists_events(rest.drop_first()));
        assert forall|i: int| 0 <= i < rest.drop_first().len() implies (
        #[trigger] rest.drop_first()[i]).len() <= usize::MAX by {
            assert(rest.drop_first()[i] == rest[i + 1]);
        }
        lemma_artists_walked((artist + 1) as usize, artists, rest.drop_first(), done);
    }
}

proof fn lemma_sum_nonneg(s: Seq<usize>)
    ensures
        sum_of(s) >= 0,
    decreases s.len(),
{
    if s.len() > 0 {
        lemma_sum_nonneg(s.drop_first());
    }
}

proof fn lemma_totals_nonneg(library: Seq<Seq<usize>>)
    ensures
        album_total(library) >= 0,
        song_total(library) >= 0,
    decreases library.len(),
{
    if library.len() > 0 {
        lemma_totals_nonneg(library.drop_first());
        lemma_sum_nonneg(library[0]);
    }
}

proof fn lemma_channels_walked(channel: usize, channels: usize, rest: Seq<usize>, st: ScanState)
    requires
        channel <= channels,
        rest.len() == channels - channel,
        st.pos == channel_or_stations(channel as int, channels),
        st.stats.podcast_channels + rest.len() <= usize::MAX,
        st.stats.podcast_episodes + sum_of(rest) <= usize::MAX,
    ensures
        run(st, channels_events(rest)).pos == ScanPos::ListStations,
        stats_grown(
            st.stats,
            run(st, channels_events(rest)).stats,
            0,
            0,
            0,
            rest.len() as int,
            sum_of(rest),
            0,
        ),
    decreases rest.len(),
{
    if rest.len() == 0 {
        assert(channels_events(rest) =~= Seq::<ScanEvent>::empty());
    } else {
        let e = rest[0];
        lemma_sum_nonneg(rest.drop_first());
        law_channel_walked(channel, channels, e, st.stats);
        let stored = scan_next_spec(st, ScanEvent::ChannelStored { episodes: e });
        let done = after_stores(stored, e as nat);
        lemma_counts_fields(st.stats, stored.stats, ScanItem::PodcastChannel, 1);
        lemma_counts_fields(stored.stats, done.stats, ScanItem::PodcastEpisode, e as int);
        let head = seq![ScanEvent::ChannelStored { episodes: e }] + stored_events(e as nat);
        lemma_run_one(st, ScanEvent::ChannelStored { episodes: e }, stored_events(e as nat));
        lemma_run_stores(stored, e as nat);
        assert(run(st, head) == done);
        assert(channels_events(rest) == head + channels_events(rest.drop_first()));
        lemma_run_concat(st, head, channels_events(rest.drop_first()));
        lemma_channels_walked((channel + 1) as usize, channels, rest.drop_first(), done);
    }
}

/// The counts of a scan that has just started: all zero.
pub open spec fn no_counts(s: ScanStats) -> bool {
    forall|item: ScanItem| #[trigger] s.count(item) == 0
}

/// The whole walk: a scan that starts with no counts and is told about a
/// library in which no call fails (see [`library_events`]) ends complete,
/// having counted each artist, album, song, channel, episode and station of
/// that library exactly once.
pub proof fn law_library_walked(
    library: Seq<Seq<usize>>,
    channels: Seq<usize>,
    stations: usize,
    stats: ScanStats,
)
    requires
        no_counts(stats),
        library.len() <= usize::MAX,
        forall|i: int| 0 <= i < library.len() ==> (#[trigger] library[i]).len() <= usize::MAX,
        album_total(library) <= usize::MAX,
        song_total(library) <= usize::MAX,
        channels.len() <= usize::MAX,
        sum_of(channels) <= usize::MAX,
    ensures
        ({
            let end = run(
                ScanState { pos: ScanPos::ListArtists, stats },
                library_events(library, channels, stations),
            );
            &&& end.pos == ScanPos::Finished
            &&& end.stats.artists == library.len()
            &&& end.stats.albums == album_total(library)
            &&& end.stats.songs == song_total(library)
            &&& end.stats.podcast_channels == channels.len()
            &&& end.stats.podcast_episodes == sum_of(channels)
            &&& end.stats.radio_stations == stations
        }),
{
    assert(stats.count(ScanItem::Artist) == 0);
    assert(stats.count(ScanItem::Album) == 0);
    assert(stats.count(ScanItem::Song) == 0);
    assert(stats.count(ScanItem::PodcastChannel) == 0);
    assert(stats.count(ScanItem::PodcastEpisode) == 0);
    assert(stats.count(ScanItem::RadioStation) == 0);
    let st = ScanState { pos: ScanPos::ListArtists, stats };
    let n = library.len() as usize;
    let cn = channels.len() as usize;
    let e1 = seq![ScanEvent::Listed { count: n }];
    let e2 = artists_events(library);
    let e3 = seq![ScanEvent::Listed { count: cn }];
    let e4 = channels_events(channels);
    let e5 = seq![ScanEvent::Listed { count: stations }];
    let e6 = stored_events(stations as nat);
    assert(library_events(library, channels, stations) == e1 + e2 + e3 + e4 + e5 + e6);
    lemma_totals_nonneg(library);
    lemma_sum_nonneg(channels);
    // The artist list.
    let s1 = scan_next_spec(st, ScanEvent::Listed { count: n });
    lemma_run_one(st, ScanEvent::Listed { count: n }, Seq::<ScanEvent>::empty());
    assert(run(s1, Seq::<ScanEvent>::empty()) == s1);
    assert(e1 =~= seq![ScanEvent::Listed { count: n }] + Seq::<ScanEvent>::empty());
    assert(run(st, e1) == s1);
    // The artists.
    lemma_artists_walked(0, n, library, s1);
    let s2 = run(s1, e2);
    lemma_run_concat(st, e1, e2);
    // The podcasts.
    let s3 = scan_next_spec(s2, ScanEvent::Listed { count: cn });
    lemma_run_one(s2, ScanEvent::Listed { count: cn }, Seq::<ScanEvent>::empty());
    assert(e3 =~= seq![ScanEvent::Listed { count: cn }] + Seq::<ScanEvent>::empty());
    assert(run(s3, Seq::<ScanEvent>::empty()) == s3);
    lemma_run_concat(st, e1 + e2, e3);
    lemma_channels_walked(0, cn, channels, s3);
    let s4 = run(s3, e4);
    lemma_run_concat(st, e1 + e2 + e3, e4);
    // The radio stations.
    law_stations_walked(stations, s4.stats);
    let s5 = scan_next_spec(s4, ScanEvent::Listed { count: stations });
    lemma_run_one(s4, ScanEvent::Listed { count: stations }, Seq::<ScanEvent>::empty());
    assert(e5 =~= seq![ScanEvent::Listed { count: stations }] + Seq::<ScanEvent>::empty());
    assert(run(s5, Seq::<ScanEvent>::empty()) == s5);
    lemma_run_concat(st, e1 + e2 + e3 + e4, e5);
    lemma_run_stores(s5, stations as nat);
    lemma_run_concat(st, e1 + e2 + e3 + e4 + e5, e6);
    let end = after_stores(s5, stations as nat);
    lemma_counts_fields(s4.stats, end.stats, ScanItem::RadioStation, stations as int);
}

} // verus!
