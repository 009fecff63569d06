use subsonic_nexus::config::{Config, MatchingConfig, NexusConfig, ServerConfig};
use subsonic_nexus::error::ErrorCode;
use subsonic_nexus::handlers::admin::{
    lookup_count, pending_row_html, pending_servers, scan_trigger_reply, server_row_html,
    server_summary, DbServer,
};
use subsonic_nexus::handlers::browsing::{
    directory_first_step, directory_next_step, directory_not_found, genre_counts,
    server_directory_name, server_filter, DirectoryStep,
};
use subsonic_nexus::handlers::lists::{
    album_list_order, album_list_query, album_list_sql, page_offset, page_size,
    random_song_filters, songs_by_genre_sql, AlbumListOrder, GetAlbumListParams,
    GetRandomSongsParams, GetSongsByGenreParams,
};
use subsonic_nexus::handlers::media_annotation::{
    scrobble_params, set_rating_params, star_params, ScrobbleParams, SetRatingParams, StarParams,
};
use subsonic_nexus::handlers::media_retrieval::{
    cover_art_request, media_params, stream_params, GetCoverArtParams, StreamParams,
};
use subsonic_nexus::handlers::playlists::{
    create_playlist_params, get_playlists_params, play_queue_user, save_play_queue_by_index_params,
    save_play_queue_params, update_playlist_params, CreatePlaylistParams, GetPlaylistsParams,
    SavePlayQueueByIndexParams, SavePlayQueueParams, UpdatePlaylistParams,
};
use subsonic_nexus::handlers::podcast::{
    channels_sql, episodes_of_channel, include_episodes, newest_episodes_sql,
    GetNewestPodcastsParams, GetPodcastsParams,
};
use subsonic_nexus::handlers::searching::{
    legacy_search_query, like_escape, search_page, song_search_sql, SearchParams,
};
use subsonic_nexus::handlers::system::token_info_user;
use subsonic_nexus::nexus::IdTemplate;
use subsonic_nexus::proxy::{check_upstream_reply, translate_ids, write_target, UpstreamReply};
use subsonic_nexus::queries::artist_by_nexus_id_sql;
use subsonic_nexus::sql::{and_filters, sql_quote};

fn pairs(v: &[(String, String)]) -> Vec<(&str, &str)> {
    v.iter().map(|(k, v)| (k.as_str(), v.as_str())).collect()
}

fn strings(v: &[&str]) -> Vec<String> {
    v.iter().map(|s| s.to_string()).collect()
}

fn album_params(list_type: &str) -> GetAlbumListParams {
    GetAlbumListParams {
        list_type: list_type.to_owned(),
        size: None,
        offset: None,
        from_year: Some(1990),
        to_year: Some(1999),
        genre: Some("Rock'n'Roll".to_owned()),
        music_folder_id: Some("2".to_owned()),
    }
}

#[test]
fn paging_defaults_and_clamps() {
    assert_eq!(page_size(None), 10);
    assert_eq!(page_size(Some(0)), 1);
    assert_eq!(page_size(Some(-4)), 1);
    assert_eq!(page_size(Some(501)), 500);
    assert_eq!(page_size(Some(77)), 77);
    assert_eq!(page_offset(None), 0);
    assert_eq!(page_offset(Some(30)), 30);
}

#[test]
fn album_list_types() {
    assert_eq!(album_list_order("newest"), AlbumListOrder::Newest);
    assert_eq!(album_list_order("byYear"), AlbumListOrder::ByYear);
    assert_eq!(album_list_order("random"), AlbumListOrder::Random);
    assert_eq!(album_list_order("whatever"), AlbumListOrder::Random);
    assert!(album_list_query(&album_params("starred")).is_none());
}

#[test]
fn album_list_filters_depend_on_type() {
    let q = album_list_query(&album_params("byYear")).unwrap();
    assert_eq!(q.order, "al.year ASC NULLS LAST, al.name COLLATE NOCASE ASC");
    assert_eq!(q.filters, strings(&["al.year >= 1990", "al.year <= 1999", "al.server_id = 2"]));
    assert_eq!((q.limit, q.offset), (10, 0));
    let q = album_list_query(&album_params("byGenre")).unwrap();
    assert_eq!(
        q.filters,
        strings(&["al.genre = 'Rock''n''Roll' COLLATE NOCASE", "al.server_id = 2"])
    );
    let mut p = album_params("newest");
    p.music_folder_id = Some("x".to_owned());
    let q = album_list_query(&p).unwrap();
    assert!(q.filters.is_empty());
    let sql = album_list_sql(&q);
    assert!(sql.ends_with("ORDER BY al.created_at DESC NULLS LAST\n           LIMIT 10 OFFSET 0"));
}

#[test]
fn random_song_filters_always_apply() {
    let p = GetRandomSongsParams {
        size: Some(3),
        from_year: None,
        to_year: Some(2000),
        genre: Some("Jazz".to_owned()),
        music_folder_id: None,
    };
    assert_eq!(random_song_filters(&p), strings(&["so.year <= 2000", "so.genre = 'Jazz'"]));
}

#[test]
fn songs_by_genre_sql_text() {
    let p = GetSongsByGenreParams {
        genre: "O'Brien".to_owned(),
        count: Some(1000),
        offset: Some(5),
        music_folder_id: None,
    };
    let sql = songs_by_genre_sql(&p);
    assert!(sql.contains("WHERE so.genre = 'O''Brien' COLLATE NOCASE"));
    assert!(sql.ends_with("LIMIT 500 OFFSET 5"));
}

#[test]
fn sql_text_helpers() {
    assert_eq!(sql_quote("it's"), "it''s");
    assert_eq!(and_filters(&vec![]), "");
    assert_eq!(and_filters(&strings(&["a", "b", "c"])), "AND a AND b AND c");
    assert_eq!(like_escape("50%_o'k"), "50\\%\\_o''k");
}

#[test]
fn search_defaults() {
    let p = SearchParams {
        artist: Some("a".to_owned()),
        album: Some("b".to_owned()),
        title: None,
        any: None,
        count: None,
        offset: None,
        newer_than: None,
    };
    assert_eq!(legacy_search_query(&p), "a");
    let page = search_page(None, Some(4));
    assert_eq!((page.count, page.offset), (20, 4));
    let sql = song_search_sql("x%", 20, 0);
    assert!(sql.contains("WHERE so.title LIKE '%x\\%%' ESCAPE '\\' COLLATE NOCASE"));
    assert!(sql.ends_with("LIMIT 20 OFFSET 0"));
}

#[test]
fn music_directory_resolution() {
    assert_eq!(directory_first_step("12"), DirectoryStep::CheckServer(12));
    assert_eq!(directory_first_step("home:ar-1"), DirectoryStep::LookupArtist);
    let s = directory_next_step(DirectoryStep::CheckServer(12), false);
    assert_eq!(s, DirectoryStep::LookupArtist);
    let s = directory_next_step(s, false);
    assert_eq!(s, DirectoryStep::LookupAlbum);
    assert_eq!(directory_next_step(s, true), DirectoryStep::ListAlbumSongs);
    assert_eq!(directory_next_step(s, false), DirectoryStep::NotFound);
    assert_eq!(
        directory_next_step(DirectoryStep::CheckServer(12), true),
        DirectoryStep::ListServerArtists(12)
    );
    assert_eq!(server_directory_name(12), "Server 12");
    let e = directory_not_found("zz");
    assert_eq!(e.code, ErrorCode::NotFound);
    assert_eq!(e.message, "No directory found for id: zz");
    assert_eq!(server_filter(&Some("3".to_owned())), Some(3));
    assert_eq!(server_filter(&Some("three".to_owned())), None);
}

#[test]
fn genres_join_album_counts() {
    let songs = vec![("Rock".to_owned(), 10), ("Jazz".to_owned(), 2)];
    let albums = vec![("Jazz".to_owned(), 1), ("Rock".to_owned(), 3), ("Rock".to_owned(), 9)];
    let g = genre_counts(songs, &albums);
    assert_eq!(g.len(), 2);
    assert_eq!((g[0].name.as_str(), g[0].song_count, g[0].album_count), ("Rock", 10, 3));
    assert_eq!((g[1].name.as_str(), g[1].song_count, g[1].album_count), ("Jazz", 2, 1));
}

fn config(write_target: Option<&str>) -> Config {
    Config {
        servers: vec![ServerConfig {
            name: "main".to_owned(),
            url: "http://main".to_owned(),
            username: "u".to_owned(),
            password: "p".to_owned(),
            priority: 0,
            matching: MatchingConfig::default(),
        }],
        nexus: NexusConfig {
            entity_id_template: "{server_name}:{upstream_id}".to_owned(),
            write_target: write_target.map(|s| s.to_owned()),
            proxy: false,
            auth: None,
        },
    }
}

#[test]
fn write_target_selection() {
    assert_eq!(write_target(&config(Some("main"))).ok().unwrap().url, "http://main");
    let e = write_target(&config(None)).err().unwrap();
    assert_eq!(e.code, ErrorCode::NotAuthorized);
    assert_eq!(e.message, "No write_target configured; playlist operations are read-only");
    let e = write_target(&config(Some("gone"))).err().unwrap();
    assert_eq!(e.message, "write_target server 'gone' not found in config");
}

#[test]
fn upstream_reply_check() {
    let ok = UpstreamReply { has_envelope: true, status: Some("ok".to_owned()), error_message: None };
    assert!(check_upstream_reply(&ok).is_ok());
    let failed = UpstreamReply {
        has_envelope: true,
        status: Some("failed".to_owned()),
        error_message: Some("Wrong username".to_owned()),
    };
    let e = check_upstream_reply(&failed).err().unwrap();
    assert_eq!((e.code, e.message.as_str()), (ErrorCode::Generic, "Wrong username"));
    let bare = UpstreamReply { has_envelope: true, status: None, error_message: None };
    assert_eq!(check_upstream_reply(&bare).err().unwrap().message, "upstream error");
    let none = UpstreamReply { has_envelope: false, status: None, error_message: None };
    assert_eq!(
        check_upstream_reply(&none).err().unwrap().message,
        "Unexpected upstream response format"
    );
}

#[test]
fn playlist_parameters() {
    let t = IdTemplate::ServerNamePrefix;
    assert_eq!(translate_ids(t, &strings(&["main:s1", "s2"])), strings(&["s1", "s2"]));
    let p = CreatePlaylistParams {
        playlist_id: Some(String::new()),
        name: Some("Mix".to_owned()),
        song_id: strings(&["main:s1", "main:s2"]),
    };
    let v = create_playlist_params(t, &p);
    assert_eq!(pairs(&v), vec![("name", "Mix"), ("songId", "s1"), ("songId", "s2")]);
    let p = UpdatePlaylistParams {
        playlist_id: "pl".to_owned(),
        name: None,
        comment: Some("c".to_owned()),
        public: Some(false),
        song_id_to_add: strings(&["main:s3"]),
        song_index_to_remove: vec![0, 4],
    };
    let v = update_playlist_params(t, &p);
    assert_eq!(
        pairs(&v),
        vec![
            ("playlistId", "pl"),
            ("comment", "c"),
            ("public", "false"),
            ("songIdToAdd", "s3"),
            ("songIndexToRemove", "0"),
            ("songIndexToRemove", "4"),
        ]
    );
    let v = get_playlists_params(&GetPlaylistsParams { username: None }, &Some("bob".to_owned()));
    assert_eq!(pairs(&v), vec![("username", "bob")]);
    assert!(get_playlists_params(&GetPlaylistsParams { username: None }, &None).is_empty());
}

#[test]
fn play_queue_parameters() {
    let t = IdTemplate::ServerNamePrefix;
    let p = SavePlayQueueParams {
        id: strings(&["main:a", "main:b"]),
        current: Some("main:a".to_owned()),
        position: Some(1500),
    };
    let v = save_play_queue_params(t, &p);
    assert_eq!(pairs(&v), vec![("current", "main:a"), ("position", "1500"), ("id", "a"), ("id", "b")]);
    let p = SavePlayQueueByIndexParams { id: strings(&["x"]), current_index: Some(0), position: None };
    let v = save_play_queue_by_index_params(t, &p);
    assert_eq!(pairs(&v), vec![("currentIndex", "0"), ("id", "x")]);
    assert_eq!(play_queue_user(&None), "admin");
    assert_eq!(token_info_user(&None), "anonymous");
    assert_eq!(token_info_user(&Some("eve".to_owned())), "eve");
}

#[test]
fn annotation_parameters() {
    let t = IdTemplate::ServerIdPrefix;
    let p = StarParams { id: strings(&["1:s"]), album_id: vec![], artist_id: strings(&["1:a"]) };
    let v = star_params(t, &p).unwrap();
    assert_eq!(pairs(&v), vec![("id", "s"), ("artistId", "a")]);
    let empty = StarParams { id: vec![], album_id: vec![], artist_id: vec![] };
    assert!(star_params(t, &empty).is_none());
    let v = set_rating_params(t, &SetRatingParams { id: "2:song".to_owned(), rating: 5 });
    assert_eq!(pairs(&v), vec![("id", "song"), ("rating", "5")]);
    let v = scrobble_params("up", &ScrobbleParams { id: "x".to_owned(), time: Some(-3), submission: Some(true) });
    assert_eq!(pairs(&v), vec![("id", "up"), ("time", "-3"), ("submission", "true")]);
}

#[test]
fn media_parameters() {
    let p = StreamParams {
        id: "s".to_owned(),
        max_bit_rate: Some(320),
        format: Some(String::new()),
        time_offset: None,
        size: None,
        estimate_content_length: None,
        converted: None,
    };
    let v = media_params("up-1", stream_params(&p));
    assert_eq!(pairs(&v), vec![("id", "up-1"), ("maxBitRate", "320")]);
    let (sid, v) = cover_art_request(&GetCoverArtParams { id: "4:cov".to_owned(), size: Some(300) })
        .ok()
        .unwrap();
    assert_eq!(sid, 4);
    assert_eq!(pairs(&v), vec![("id", "cov"), ("size", "300")]);
    let e = cover_art_request(&GetCoverArtParams { id: "cov".to_owned(), size: None }).err().unwrap();
    assert_eq!((e.code, e.message.as_str()), (ErrorCode::NotFound, "Invalid cover art id: cov"));
}

#[test]
fn podcast_queries() {
    assert!(include_episodes(&GetPodcastsParams { include_episodes: None, id: None }));
    let sql = channels_sql(&GetPodcastsParams { include_episodes: Some(false), id: Some("c'1".to_owned()) });
    assert!(sql.contains("WHERE 1=1 AND pc.upstream_id = 'c''1' ORDER BY"));
    assert!(newest_episodes_sql(&GetNewestPodcastsParams { count: None }).ends_with("LIMIT 20"));
    let chans = strings(&["a", "b", "a"]);
    assert_eq!(episodes_of_channel(&chans, &"a".to_owned()), vec![0, 2]);
}

#[test]
fn entity_lookup_sql() {
    let sql = artist_by_nexus_id_sql(IdTemplate::ServerNamePrefix, "o'neil:ar-1");
    assert!(sql.ends_with(" AND ar.upstream_id = 'ar-1' AND s.name = 'o''neil' LIMIT 1"));
    let sql = artist_by_nexus_id_sql(IdTemplate::ServerIdPrefix, "7:ar-1");
    assert!(sql.ends_with(" AND ar.upstream_id = 'ar-1' AND ar.server_id = 7 LIMIT 1"));
}

#[test]
fn dashboard_rows() {
    let row = DbServer {
        id: 2,
        name: "main".to_owned(),
        url: "http://main".to_owned(),
        priority: 0,
        last_scanned_at: None,
    };
    let counts = vec![(1, 5), (2, 7), (2, 9)];
    assert_eq!(lookup_count(&counts, 2), 7);
    assert_eq!(lookup_count(&counts, 3), 0);
    let cfg = config(None);
    let s = server_summary(&row, &counts, &vec![], &counts, &cfg.servers);
    assert_eq!((s.artists, s.albums, s.songs), (7, 0, 7));
    assert_eq!(s.scanned, "never");
    assert!(s.in_config);
    assert!(pending_servers(&cfg.servers, &vec![row]).is_empty());
    assert_eq!(pending_servers(&cfg.servers, &vec![]), vec![0]);
    let r = scan_trigger_reply(0);
    assert!(!r.accepted);
    assert_eq!(r.message, "No servers configured in nexus.toml");
    let r = scan_trigger_reply(3);
    assert!(r.accepted);
    assert_eq!(r.status, "started");
    assert_eq!(r.message, "Scan started for 3 server(s). Check the dashboard for results.");
}

#[test]
fn dashboard_row_html() {
    let row = DbServer {
        id: 2,
        name: "main".to_owned(),
        url: "http://main".to_owned(),
        priority: -3,
        last_scanned_at: Some("1700000000".to_owned()),
    };
    let counts = vec![(2, 12)];
    let cfg = config(None);
    let s = server_summary(&row, &counts, &vec![], &counts, &cfg.servers);
    assert_eq!(
        server_row_html(&row, &s),
        "<tr>\n  <td><strong>main</strong><br><small class=\"muted\">http://main</small></td>\n  \
         <td class=\"center\">-3</td>\n  <td class=\"center\">12</td>\n  <td class=\"center\">0</td>\n  \
         <td class=\"center\">12</td>\n  <td class=\"center\"><code>1700000000</code></td>\n  \
         <td class=\"center\"><span class=\"badge ok\">✓ configured</span></td>\n</tr>"
    );
    let pending = pending_row_html(&cfg.servers[0]);
    assert!(pending.starts_with("<tr class=\"dim\">\n  <td><strong>"));
    assert!(pending.contains("<code>not scanned</code>"));
    assert!(pending.ends_with("⚠ pending scan</span></td>\n</tr>"));
}
