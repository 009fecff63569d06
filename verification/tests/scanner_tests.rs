use subsonic_nexus::config::{MatchingConfig, ServerConfig};
use subsonic_nexus::scanner::{
    eval_album, eval_artist, needs_rescan, server_row_action, song_artist, AlbumKeyFields,
    ArtistKeyFields, ScanItem, ScanStats, ServerRowAction, StoredServer,
};
use subsonic_nexus::scanner::{on_upstream_failure, OnFailure, ScanCall};
use subsonic_nexus::scanner::{scan_next, scan_start, ScanAction, ScanEvent, ScanPos, ScanState};
use subsonic_nexus::template::Template;

fn server(artist: &str, album: &str) -> ServerConfig {
    ServerConfig {
        name: "myserver".to_owned(),
        url: "https://myserver.example.com".to_owned(),
        username: "u".to_owned(),
        password: "p".to_owned(),
        priority: 0,
        matching: MatchingConfig { artist: artist.to_owned(), album: album.to_owned() },
    }
}

#[test]
fn test_template_change_triggers_rescan() {
    let cfg1 = server("{name|lowercase}", "{artist_key}:{name|lowercase}");
    let first = server_row_action(&None, &cfg1);
    assert!(needs_rescan(first), "first run should always need a scan");
    let stored = StoredServer {
        id: 1,
        artist_key_template: Some(cfg1.matching.artist.clone()),
        album_key_template: Some(cfg1.matching.album.clone()),
    };
    let again = server_row_action(&Some(stored), &cfg1);
    assert!(!needs_rescan(again), "same templates should not trigger a rescan");
    let cfg2 = server("{music_brainz_id:-{name|lowercase}}", "{artist_key}:{name|lowercase}");
    let stored = StoredServer {
        id: 1,
        artist_key_template: Some(cfg1.matching.artist.clone()),
        album_key_template: Some(cfg1.matching.album.clone()),
    };
    let changed = server_row_action(&Some(stored), &cfg2);
    assert!(needs_rescan(changed), "changed artist template should trigger a rescan");
    assert_eq!(changed, ServerRowAction::Rewrite);
}

#[test]
fn artist_and_album_keys() {
    let artist_t = Template::parse("{music_brainz_id:-{name|lowercase|trim}}");
    let album_t = Template::parse("{music_brainz_id:-{artist_key}:{name|lowercase|trim}}");
    let a = ArtistKeyFields { music_brainz_id: None, name: " Daft Punk ".to_owned(), sort_name: None };
    let key = eval_artist(&artist_t, &a);
    assert_eq!(key, "daft punk");
    let al = AlbumKeyFields {
        music_brainz_id: None,
        name: "Random Access Memories".to_owned(),
        sort_name: None,
        year: Some(2013),
        display_artist: None,
    };
    assert_eq!(eval_album(&album_t, &al, &key), "daft punk:random access memories");
    let year_t = Template::parse("{name}-{year}");
    assert_eq!(eval_album(&year_t, &al, &key), "Random Access Memories-2013");
}

#[test]
fn strip_articles_keeps_names_without_article() {
    // "Aéx", "Béla Fleck": the article lengths fall inside 'é'; no article is
    // there, so the name stays as it is.
    let t = Template::parse("{name|strip_articles}");
    let a = ArtistKeyFields { music_brainz_id: None, name: "Aéx".to_owned(), sort_name: None };
    assert_eq!(eval_artist(&t, &a), "Aéx");
    let c = ArtistKeyFields { music_brainz_id: None, name: "Béla Fleck".to_owned(), sort_name: None };
    assert_eq!(eval_artist(&t, &c), "Béla Fleck");
    let b = ArtistKeyFields { music_brainz_id: None, name: "The Who".to_owned(), sort_name: None };
    assert_eq!(eval_artist(&t, &b), "Who");
}

#[test]
fn song_artist_prefers_own_artist() {
    assert_eq!(song_artist(Some(9), 4), Some(9));
    assert_eq!(song_artist(None, 4), Some(4));
}

#[test]
fn scan_statistics() {
    let mut s = ScanStats::default();
    s.record(ScanItem::Artist);
    s.record(ScanItem::Song);
    s.record(ScanItem::Song);
    assert_eq!((s.artists, s.albums, s.songs, s.radio_stations), (1, 0, 2, 0));
}

#[test]
fn only_the_artist_list_is_essential() {
    assert_eq!(on_upstream_failure(ScanCall::ListArtists), OnFailure::AbortScan);
    assert_eq!(on_upstream_failure(ScanCall::GetArtist), OnFailure::SkipItem);
    assert_eq!(on_upstream_failure(ScanCall::GetAlbum), OnFailure::SkipItem);
    assert_eq!(on_upstream_failure(ScanCall::GetPodcasts), OnFailure::SkipItem);
    assert_eq!(on_upstream_failure(ScanCall::GetRadioStations), OnFailure::SkipItem);
}

fn drive(events: &[ScanEvent]) -> (ScanState, Vec<ScanAction>) {
    let (mut state, first) = scan_start();
    let mut actions = vec![first];
    for ev in events {
        let (next, action) = scan_next(state, *ev);
        state = next;
        actions.push(action);
    }
    (state, actions)
}

#[test]
fn scan_walk_visits_the_library_in_order() {
    let (state, actions) = drive(&[
        ScanEvent::Listed { count: 2 },
        ScanEvent::Stored,
        ScanEvent::Listed { count: 1 },
        ScanEvent::Stored,
        ScanEvent::Listed { count: 2 },
        ScanEvent::Stored,
        ScanEvent::Stored,
        ScanEvent::Stored,
        ScanEvent::FetchFailed,
        ScanEvent::Listed { count: 1 },
        ScanEvent::ChannelStored { episodes: 1 },
        ScanEvent::Stored,
        ScanEvent::Listed { count: 0 },
    ]);
    assert_eq!(
        actions,
        vec![
            ScanAction::FetchArtists,
            ScanAction::StoreArtist { artist: 0 },
            ScanAction::FetchArtist { artist: 0 },
            ScanAction::StoreAlbum { artist: 0, album: 0 },
            ScanAction::FetchAlbum { artist: 0, album: 0 },
            ScanAction::StoreSong { artist: 0, album: 0, song: 0 },
            ScanAction::StoreSong { artist: 0, album: 0, song: 1 },
            ScanAction::StoreArtist { artist: 1 },
            ScanAction::FetchArtist { artist: 1 },
            ScanAction::FetchPodcasts,
            ScanAction::StoreChannel { channel: 0 },
            ScanAction::StoreEpisode { channel: 0, episode: 0 },
            ScanAction::FetchRadioStations,
            ScanAction::Finish,
        ]
    );
    assert_eq!(state.pos, ScanPos::Finished);
    assert_eq!(state.stats.artists, 2);
    assert_eq!(state.stats.albums, 1);
    assert_eq!(state.stats.songs, 2);
    assert_eq!(state.stats.podcast_channels, 1);
    assert_eq!(state.stats.podcast_episodes, 1);
    assert_eq!(state.stats.radio_stations, 0);
}

#[test]
fn scan_walk_aborts_without_artist_list() {
    let (state, actions) = drive(&[ScanEvent::FetchFailed]);
    assert_eq!(state.pos, ScanPos::Aborted);
    assert_eq!(actions.last(), Some(&ScanAction::Abort));
    let (after, action) = scan_next(state, ScanEvent::Stored);
    assert_eq!(after.pos, ScanPos::Aborted);
    assert_eq!(action, ScanAction::Abort);
}

#[test]
fn scan_walk_skips_failed_podcasts_and_stations() {
    let (state, actions) = drive(&[ScanEvent::Listed { count: 0 }, ScanEvent::FetchFailed, ScanEvent::Listed { count: 1 }, ScanEvent::Stored]);
    assert_eq!(actions[1], ScanAction::FetchPodcasts);
    assert_eq!(actions[2], ScanAction::FetchRadioStations);
    assert_eq!(actions[3], ScanAction::StoreStation { station: 0 });
    assert_eq!(state.pos, ScanPos::Finished);
    assert_eq!(state.stats.radio_stations, 1);
}

#[test]
fn scan_walk_database_failure_aborts() {
    let (state, _) = drive(&[ScanEvent::Listed { count: 3 }, ScanEvent::DbFailed]);
    assert_eq!(state.pos, ScanPos::Aborted);
    assert_eq!(state.stats.artists, 0);
}

#[test]
fn scan_walk_counts_a_whole_library() {
    let (state, actions) = drive(&[
        ScanEvent::Listed { count: 2 },
        ScanEvent::Stored,
        ScanEvent::Listed { count: 2 },
        ScanEvent::Stored,
        ScanEvent::Listed { count: 2 },
        ScanEvent::Stored,
        ScanEvent::Stored,
        ScanEvent::Stored,
        ScanEvent::Listed { count: 0 },
        ScanEvent::Stored,
        ScanEvent::Listed { count: 1 },
        ScanEvent::Stored,
        ScanEvent::Listed { count: 1 },
        ScanEvent::Stored,
        ScanEvent::Listed { count: 2 },
        ScanEvent::ChannelStored { episodes: 0 },
        ScanEvent::ChannelStored { episodes: 3 },
        ScanEvent::Stored,
        ScanEvent::Stored,
        ScanEvent::Stored,
        ScanEvent::Listed { count: 2 },
        ScanEvent::Stored,
        ScanEvent::Stored,
    ]);
    assert_eq!(actions.last(), Some(&ScanAction::Finish));
    assert_eq!(state.pos, ScanPos::Finished);
    assert_eq!(state.stats.artists, 2);
    assert_eq!(state.stats.albums, 3);
    assert_eq!(state.stats.songs, 3);
    assert_eq!(state.stats.podcast_channels, 2);
    assert_eq!(state.stats.podcast_episodes, 3);
    assert_eq!(state.stats.radio_stations, 2);
}
