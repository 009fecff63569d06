use subsonic_nexus::config::{Config, MatchingConfig, NexusConfig, ServerConfig};
use subsonic_nexus::error::{ErrorCode, SubsonicError};
use subsonic_nexus::extract::{combine_query_and_body, is_form_body};
use subsonic_nexus::nexus::{
    build_cover_art_id, build_entity_id, build_upstream_url, group_by_index_letter, index_letter,
    parse_cover_art_id, parse_entity_id, urlencoded, IdTemplate, ServerHint,
};
use subsonic_nexus::text::parse_i32;

fn server() -> ServerConfig {
    ServerConfig {
        name: "home".to_owned(),
        url: "https://music.example.com//".to_owned(),
        username: "al ice".to_owned(),
        password: "sesame".to_owned(),
        priority: 0,
        matching: MatchingConfig::default(),
    }
}

#[test]
fn error_code_numbers() {
    assert_eq!(ErrorCode::Generic.code(), 0);
    assert_eq!(ErrorCode::MissingParameter.code(), 10);
    assert_eq!(ErrorCode::WrongCredentials.code(), 40);
    assert_eq!(ErrorCode::InvalidApiKey.code(), 44);
    assert_eq!(ErrorCode::NotAuthorized.code(), 50);
    assert_eq!(ErrorCode::NotFound.code(), 70);
    let e = SubsonicError::not_found("gone");
    let api = e.api_error();
    assert_eq!(api.code, 70);
    assert_eq!(api.message, "gone");
    assert_eq!(SubsonicError::generic("x").code, ErrorCode::Generic);
    assert_eq!(SubsonicError::not_authorized("x").code, ErrorCode::NotAuthorized);
}

#[test]
fn id_template_detection() {
    assert_eq!(IdTemplate::from_config("{server_name}:{upstream_id}"), IdTemplate::ServerNamePrefix);
    assert_eq!(IdTemplate::from_config("{server_id}:{upstream_id}"), IdTemplate::ServerIdPrefix);
    assert_eq!(IdTemplate::from_config("{upstream_id}"), IdTemplate::UpstreamOnly);
}

#[test]
fn entity_id_roundtrip() {
    let id = build_entity_id(IdTemplate::ServerNamePrefix, "home", 3, "al-1:x");
    assert_eq!(id, "home:al-1:x");
    let p = parse_entity_id(IdTemplate::ServerNamePrefix, &id);
    assert_eq!(p.upstream_id, "al-1:x");
    assert!(matches!(p.server_hint, Some(ServerHint::Name(ref n)) if n == "home"));
    let id = build_entity_id(IdTemplate::ServerIdPrefix, "home", 3, "ar-9");
    assert_eq!(id, "3:ar-9");
    let p = parse_entity_id(IdTemplate::ServerIdPrefix, &id);
    assert!(matches!(p.server_hint, Some(ServerHint::DbId(3))));
    assert_eq!(p.upstream_id, "ar-9");
    let p = parse_entity_id(IdTemplate::UpstreamOnly, "a:b");
    assert!(p.server_hint.is_none());
    assert_eq!(p.upstream_id, "a:b");
}

#[test]
fn cover_art_roundtrip() {
    let id = build_cover_art_id(12, "al-3");
    assert_eq!(id, "12:al-3");
    assert_eq!(parse_cover_art_id(&id), Some((12, "al-3")));
    assert_eq!(parse_cover_art_id("nope"), None);
    assert_eq!(parse_cover_art_id("x:y"), None);
}

#[test]
fn urlencoding() {
    assert_eq!(urlencoded("a b&c=d/é~_-."), "a%20b%26c%3Dd%2F%C3%A9~_-.");
}

#[test]
fn upstream_url() {
    let url = build_upstream_url(&server(), "getPlaylist", &[("id", "p 1")], "c19b2d");
    assert_eq!(
        url,
        "https://music.example.com/rest/getPlaylist?u=al%20ice&t=26719a1196d2a940705a59634eb18eab&s=c19b2d&v=1.16.1&c=subsonic-nexus&f=json&id=p%201"
    );
}

#[test]
fn index_letters() {
    assert_eq!(index_letter("The Beatles"), "B");
    assert_eq!(index_letter("abba"), "A");
    assert_eq!(index_letter("10cc"), "#");
    assert_eq!(index_letter(""), "#");
    assert_eq!(index_letter("Ängel"), "#");
}

#[test]
fn grouping_keeps_first_appearance_order() {
    let names: Vec<String> = ["Beck", "Abba", "The Band", "10cc", "Air"]
        .iter()
        .map(|s| s.to_string())
        .collect();
    let groups = group_by_index_letter(&names);
    let keys: Vec<&str> = groups.iter().map(|g| g.name.as_str()).collect();
    assert_eq!(keys, vec!["B", "A", "#"]);
    assert_eq!(groups[0].members, vec![0, 2]);
    assert_eq!(groups[1].members, vec![1, 4]);
    assert_eq!(groups[2].members, vec![3]);
}

#[test]
fn parse_integers() {
    assert_eq!(parse_i32("42"), Some(42));
    assert_eq!(parse_i32("-7"), Some(-7));
    assert_eq!(parse_i32("+5"), Some(5));
    assert_eq!(parse_i32("2147483648"), None);
    assert_eq!(parse_i32("-2147483648"), Some(i32::MIN));
    assert_eq!(parse_i32(""), None);
    assert_eq!(parse_i32("1a"), None);
}

#[test]
fn server_lookup_takes_first_match() {
    let mut second = server();
    second.url = "https://other".to_owned();
    let cfg = Config { servers: vec![server(), second], nexus: NexusConfig::default() };
    assert_eq!(cfg.server_by_name("home").unwrap().url, "https://music.example.com//");
    assert!(cfg.server_by_name("away").is_none());
}

#[test]
fn query_and_body_combined() {
    assert_eq!(combine_query_and_body("a=1".into(), "b=2".into()), "a=1&b=2");
    assert_eq!(combine_query_and_body("".into(), "b=2".into()), "b=2");
    assert_eq!(combine_query_and_body("a=1".into(), "".into()), "a=1");
    assert!(is_form_body(Some("application/x-www-form-urlencoded; charset=UTF-8")));
    assert!(!is_form_body(Some("application/json")));
    assert!(!is_form_body(None));
}

#[test]
fn default_templates() {
    let m = MatchingConfig::default();
    assert_eq!(m.artist, "{music_brainz_id:-{name|lowercase|trim}}");
    assert_eq!(m.album, "{music_brainz_id:-{artist_key}:{name|lowercase|trim}}");
}

#[test]
fn salt_is_sixteen_hex_digits() {
    assert_eq!(subsonic_nexus::token::format_salt(0xab, 0x1234), "000000ab00001234");
    assert_eq!(subsonic_nexus::token::format_salt(u32::MAX, 0), "ffffffff00000000");
}

#[test]
fn encoded_values_cannot_split_parameters() {
    let e = urlencoded("a&b=c?d#e f+g%h");
    assert!(e.chars().all(|c| c.is_ascii_alphanumeric() || "-._~%".contains(c)));
    assert_eq!(e, "a%26b%3Dc%3Fd%23e%20f%2Bg%25h");
}
