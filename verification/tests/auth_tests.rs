use subsonic_nexus::auth::{
    authenticate, decode_plain_password, Credential,
    Format, RawAuthParams, SubsonicAuth,
};
use subsonic_nexus::config::AuthConfig;
use subsonic_nexus::error::ErrorCode;
use subsonic_nexus::token::subsonic_token;

fn params() -> RawAuthParams {
    RawAuthParams { u: None, p: None, t: None, s: None, api_key: None, c: None, v: None, f: None }
}

fn cfg() -> AuthConfig {
    AuthConfig {
        username: "admin".to_owned(),
        password: "sesame".to_owned(),
        api_keys: vec!["key-1".to_owned(), "key-2".to_owned()],
    }
}

#[test]
fn token_matches_subsonic_documentation() {
    assert_eq!(subsonic_token("sesame", "c19b2d"), "26719a1196d2a940705a59634eb18eab");
}

#[test]
fn enc_password_is_hex_decoded() {
    assert_eq!(decode_plain_password("enc:736573616d65"), "sesame");
    assert_eq!(decode_plain_password("sesame"), "sesame");
    assert_eq!(decode_plain_password("enc:"), "");
}

#[test]
fn enc_password_roundtrip_unicode() {
    let pw = "päss wört";
    let hex: String = pw.bytes().map(|b| format!("{:02x}", b)).collect();
    let p = format!("enc:{hex}");
    assert_eq!(decode_plain_password(&p), pw);
}

#[test]
fn enc_password_odd_length_skips_last_byte() {
    assert_eq!(decode_plain_password("enc:616"), "a");
    assert_eq!(decode_plain_password("enc:6162c"), "ab");
    // 0xab alone is no UTF-8 text.
    assert_eq!(decode_plain_password("enc:abc"), "");
}

#[test]
fn enc_password_groups_inside_characters_are_skipped() {
    // "é" is two bytes: the group is no number.
    assert_eq!(decode_plain_password("enc:\u{e9}41"), "A");
    // "€" is three bytes: its groups are cut and skipped, the pairs after it
    // shift by one byte.
    assert_eq!(decode_plain_password("enc:\u{20ac}x41"), "A");
    assert_eq!(decode_plain_password("enc:a\u{e9}"), "");
}

#[test]
fn enc_password_skips_non_hex_pairs_and_accepts_plus() {
    // "zz" is no number and is skipped; "+A" reads as 0x0A.
    assert_eq!(decode_plain_password("enc:41zz42"), "AB");
    assert_eq!(decode_plain_password("enc:+A"), "\n");
}

#[test]
fn enc_password_invalid_utf8_is_empty() {
    assert_eq!(decode_plain_password("enc:ff"), "");
}

#[test]
fn api_key_wins_over_token_and_password() {
    let mut p = params();
    p.api_key = Some("k".to_owned());
    p.t = Some("t".to_owned());
    p.s = Some("s".to_owned());
    p.p = Some("p".to_owned());
    let a = p.into_auth();
    assert!(matches!(a.credential, Credential::ApiKey(ref k) if k == "k"));
}

#[test]
fn token_needs_salt() {
    let mut p = params();
    p.t = Some("t".to_owned());
    p.p = Some("pw".to_owned());
    let a = p.into_auth();
    assert!(matches!(a.credential, Credential::Plain(ref x) if x == "pw"));
}

#[test]
fn defaults_of_extracted_auth() {
    let a: SubsonicAuth = params().into_auth();
    assert!(matches!(a.credential, Credential::Absent));
    assert_eq!(a.client, "");
    assert_eq!(a.version, "1.16.1");
    assert_eq!(a.format, Format::Json);
    let mut p = params();
    p.f = Some("xml".to_owned());
    assert_eq!(p.into_auth().format, Format::Xml);
    let mut p = params();
    p.f = Some("XML".to_owned());
    assert_eq!(p.into_auth().format, Format::Json);
}

#[test]
fn validate_token() {
    let mut p = params();
    p.u = Some("admin".to_owned());
    p.t = Some(subsonic_token("sesame", "abc"));
    p.s = Some("abc".to_owned());
    assert!(p.into_auth().validate(&cfg()).is_ok());

    let mut p = params();
    p.u = Some("admin".to_owned());
    p.t = Some(subsonic_token("wrong", "abc"));
    p.s = Some("abc".to_owned());
    let e = match p.into_auth().validate(&cfg()) {
        Ok(()) => panic!("expected a rejection"),
        Err(e) => e,
    };
    assert_eq!(e.code, ErrorCode::WrongCredentials);
    assert_eq!(e.message, "Wrong username or password.");
}

#[test]
fn validate_plain_and_enc() {
    let mut p = params();
    p.u = Some("admin".to_owned());
    p.p = Some("sesame".to_owned());
    assert!(p.into_auth().validate(&cfg()).is_ok());
    let mut p = params();
    p.u = Some("admin".to_owned());
    p.p = Some("enc:736573616d65".to_owned());
    assert!(p.into_auth().validate(&cfg()).is_ok());
    let mut p = params();
    p.u = Some("someone".to_owned());
    p.p = Some("sesame".to_owned());
    assert!(p.into_auth().validate(&cfg()).is_err());
}

#[test]
fn validate_api_key() {
    let mut p = params();
    p.api_key = Some("key-2".to_owned());
    assert!(p.into_auth().validate(&cfg()).is_ok());
    let mut p = params();
    p.api_key = Some("key-3".to_owned());
    let e = match p.into_auth().validate(&cfg()) {
        Ok(()) => panic!("expected a rejection"),
        Err(e) => e,
    };
    assert_eq!(e.code, ErrorCode::InvalidApiKey);
    assert_eq!(e.message, "Invalid API key.");
}

#[test]
fn no_credential_rejected_but_accepted_without_auth() {
    let mut p = params();
    p.u = Some("admin".to_owned());
    match authenticate(p, &Some(cfg())) {
        Ok(_) => panic!("a request without credential must be rejected"),
        Err(e) => assert_eq!(e.code, ErrorCode::WrongCredentials),
    }
    let mut p = params();
    p.u = Some("admin".to_owned());
    match authenticate(p, &None) {
        Ok(a) => assert_eq!(a.username.as_deref(), Some("admin")),
        Err(_) => panic!("no-auth mode accepts every request"),
    }
}

#[test]
fn undecodable_password_is_wrong() {
    let mut p = params();
    p.u = Some("admin".to_owned());
    p.p = Some("enc:abc".to_owned());
    match authenticate(p, &Some(cfg())) {
        Ok(_) => panic!("a password that does not decode must be rejected"),
        Err(e) => assert_eq!(e.code, ErrorCode::WrongCredentials),
    }
    let mut p = params();
    p.u = Some("admin".to_owned());
    p.p = Some("enc:a\u{e9}".to_owned());
    assert!(authenticate(p, &None).is_ok());
}

#[test]
fn enc_password_roundtrip_any_hex_case() {
    assert_eq!(decode_plain_password("enc:736573616D65"), "sesame");
    assert_eq!(decode_plain_password("enc:736573616d65"), "sesame");
    assert_eq!(decode_plain_password("enc:4d4D"), "MM");
    assert_eq!(decode_plain_password("enc:c3A9"), "\u{e9}");
    let pw = "päss wört";
    let hex: String = pw.bytes().map(|b| format!("{:02X}", b)).collect();
    assert_eq!(decode_plain_password(&format!("enc:{hex}")), pw);
}

#[test]
fn access_control_follows_validation() {
    let mut right = params();
    right.u = Some("admin".to_owned());
    right.p = Some("enc:736573616D65".to_owned());
    assert!(authenticate(right, &Some(cfg())).is_ok());
    let mut wrong = params();
    wrong.u = Some("admin".to_owned());
    wrong.p = Some("open".to_owned());
    match authenticate(wrong, &Some(cfg())) {
        Ok(_) => panic!("a wrong password must be rejected"),
        Err(e) => assert_eq!(e.code, ErrorCode::WrongCredentials),
    }
    let mut anyone = params();
    anyone.u = Some("guest".to_owned());
    anyone.p = Some("open".to_owned());
    assert!(authenticate(anyone, &None).is_ok());
}
