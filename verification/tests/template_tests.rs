use subsonic_nexus::template::Template;

fn field(name: &'static str, value: &'static str) -> impl Fn(&str) -> Option<String> {
    move |f| if f == name { Some(value.to_owned()) } else { None }
}

#[test]
fn literal_only() {
    let t = Template::parse("hello world");
    assert_eq!(t.eval(&|_| None), "hello world");
}

#[test]
fn simple_field() {
    let t = Template::parse("{name}");
    assert_eq!(t.eval(&field("name", "Daft Punk")), "Daft Punk");
}

#[test]
fn field_with_transforms() {
    let t = Template::parse("{name|lowercase|trim}");
    assert_eq!(t.eval(&field("name", "  Daft Punk  ")), "  daft punk  ".trim());
    // lowercase first, then trim
    let t2 = Template::parse("{name|trim|lowercase}");
    assert_eq!(t2.eval(&field("name", "  Daft Punk  ")), "daft punk");
}

#[test]
fn fallback_when_empty() {
    let t = Template::parse("{music_brainz_id:-{name|lowercase|trim}}");
    // No MBID → falls back to normalized name
    assert_eq!(
        t.eval(&|f| if f == "name" { Some("Daft Punk".to_owned()) } else { None }),
        "daft punk"
    );
    // With MBID → uses it directly
    assert_eq!(
        t.eval(&|f| match f {
            "music_brainz_id" => Some("abc-123".to_owned()),
            "name" => Some("Daft Punk".to_owned()),
            _ => None,
        }),
        "abc-123"
    );
}

#[test]
fn fallback_with_nested_text() {
    let t = Template::parse("{mbid:-x{name:-none}y:-z}");
    // Present and non-empty: the value itself.
    assert_eq!(t.eval(&field("mbid", "id-1")), "id-1");
    // Present but empty: the fallback, evaluated.
    let empty_id = |f: &str| match f {
        "mbid" => Some(String::new()),
        "name" => Some("Air".to_owned()),
        _ => None,
    };
    assert_eq!(t.eval(&empty_id), "xAiry:-z");
    // Absent: the fallback, with its own fallback.
    assert_eq!(t.eval(&|_| None), "xnoney:-z");
}

#[test]
fn different_case_same_key() {
    let t = Template::parse("{name|lowercase|trim}");
    let k1 = t.eval(&field("name", "Daft Punk"));
    let k2 = t.eval(&field("name", "daft punk"));
    assert_eq!(k1, k2, "case variants should produce the same key");
}

#[test]
fn ascii_normalize_transform() {
    let t = Template::parse("{name|ascii_normalize|lowercase}");
    assert_eq!(t.eval(&field("name", "Björk")), "bjork");
}

#[test]
fn strip_articles_transform() {
    let t = Template::parse("{name|strip_articles|lowercase}");
    assert_eq!(t.eval(&field("name", "The Beatles")), "beatles");
    assert_eq!(t.eval(&field("name", "A-ha")), "a-ha"); // "A " needs trailing space
    assert_eq!(t.eval(&field("name", "A Ha")), "ha");
}

#[test]
fn album_template_uses_artist_key() {
    let t = Template::parse("{music_brainz_id:-{artist_key}:{name|lowercase|trim}}");
    let key = t.eval(&|f| match f {
        "artist_key" => Some("daft punk".to_owned()),
        "name" => Some("Discovery".to_owned()),
        _ => None,
    });
    assert_eq!(key, "daft punk:discovery");
}

#[test]
fn test_template_mbid_present() {
    let t = Template::parse("{music_brainz_id:-{name|lowercase|trim}}");
    let key = t.eval(&|f| match f {
        "music_brainz_id" => Some("mbid-abc".to_owned()),
        "name" => Some("Daft Punk".to_owned()),
        _ => None,
    });
    assert_eq!(key, "mbid-abc", "should use MusicBrainz ID when present");
}

#[test]
fn test_template_mbid_absent_fallback() {
    let t = Template::parse("{music_brainz_id:-{name|lowercase|trim}}");
    let key = t.eval(&|f| match f {
        "name" => Some("Daft Punk".to_owned()),
        _ => None,
    });
    assert_eq!(key, "daft punk", "should fall back to normalized name");
}

#[test]
fn test_template_different_case_same_key() {
    let t = Template::parse("{name|lowercase|trim}");
    let k1 = t.eval(&|f| {
        if f == "name" {
            Some("Daft Punk".to_owned())
        } else {
            None
        }
    });
    let k2 = t.eval(&|f| {
        if f == "name" {
            Some("daft punk".to_owned())
        } else {
            None
        }
    });
    assert_eq!(
        k1, k2,
        "case variants should produce the same aggregation key"
    );
}

#[test]
fn literal_template_ignores_fields() {
    let t = Template::parse("fixed key");
    assert_eq!(t.eval(&field("name", "anything")), "fixed key");
}

#[test]
fn unknown_transform_is_ignored() {
    let t = Template::parse("{name|shout}");
    assert_eq!(t.eval(&field("name", "Daft Punk")), "Daft Punk");
}

#[test]
fn unknown_field_evaluates_empty() {
    let t = Template::parse("[{genre}]");
    assert_eq!(t.eval(&field("name", "Daft Punk")), "[]");
}

#[test]
fn nested_fallback_chain() {
    let t = Template::parse("{a:-{b:-{c}}}");
    assert_eq!(t.eval(&field("c", "third")), "third");
    assert_eq!(t.eval(&field("b", "second")), "second");
}

#[test]
fn strip_an_article() {
    let t = Template::parse("{name|strip_articles}");
    assert_eq!(t.eval(&field("name", "An Horse")), "Horse");
    assert_eq!(t.eval(&field("name", "the ")), "the ");
    assert_eq!(t.eval(&field("name", "Béla Fleck")), "Béla Fleck");
    assert_eq!(t.eval(&field("name", "aé")), "aé");
}

#[test]
fn ascii_normalize_drops_unmapped() {
    let t = Template::parse("{name|ascii_normalize}");
    assert_eq!(t.eval(&field("name", "Sigur Rós 東京")), "Sigur Ros ");
}

#[test]
fn ascii_normalize_decomposes_letters() {
    let t = Template::parse("{name|ascii_normalize}");
    assert_eq!(t.eval(&field("name", "Dvořák")), "Dvorak");
    assert_eq!(t.eval(&field("name", "Łódź Ősz Ā")), "odz Osz A");
    assert_eq!(t.eval(&field("name", "\u{212A}elvin")), "Kelvin");
}

#[test]
fn ascii_normalize_drops_marks_and_controls() {
    let t = Template::parse("{name|ascii_normalize}");
    assert_eq!(t.eval(&field("name", "e\u{301}t\u{e9}")), "ete");
    assert_eq!(t.eval(&field("name", "a\tb\nc\u{7f}")), "abc");
    assert_eq!(t.eval(&field("name", "Ærø")), "r");
    assert_eq!(t.eval(&field("name", "plain ASCII ~!")), "plain ASCII ~!");
}

#[test]
fn cloned_template_evaluates_alike() {
    let t = Template::parse("{a:-{b|lowercase}}-x");
    let c = t.clone();
    let f = |f: &str| if f == "b" { Some("ABC".to_owned()) } else { None };
    assert_eq!(t.eval(&f), c.eval(&f));
    assert_eq!(c.eval(&f), "abc-x");
}
