//! Subsonic authentication: which credential a request carries and whether
//! the configured `[nexus.auth]` accepts it.
//!
//! If `[nexus.auth]` is configured, requests with wrong credentials are
//! rejected before they reach any handler.  If no auth is configured, all
//! logins are accepted (no-auth mode).

use vstd::prelude::*;
use vstd::utf8::{decode_utf8, encode_utf8, valid_utf8};
use crate::config::AuthConfig;
use crate::error::{ErrorCode, SubsonicError};
use crate::text::{chars_eq_str, chars_of, code};
use crate::token::{hex_lower, hex_lower_digit, subsonic_token, token_model};

verus! {

broadcast use vstd::utf8::encode_utf8_valid_utf8, vstd::utf8::encode_utf8_decode_utf8;

/// Parsed Subsonic authentication parameters.
#[derive(Debug, Clone)]
pub struct SubsonicAuth {
    pub username: Option<String>,
    pub credential: Credential,
    pub client: String,
    pub version: String,
    pub format: Format,
}

#[derive(Debug, Clone)]
pub enum Credential {
    /// Legacy plain-text password (`p=` param, optionally hex-encoded with `enc:` prefix).
    Plain(String),
    /// Token-based auth (`t=` MD5 token + `s=` salt, API ≥ 1.13.0).
    Token { token: String, salt: String },
    /// OpenSubsonic API key (`apiKey=` param, no username required).
    ApiKey(String),
    /// No credential provided.
    Absent,
}

/// What a credential holds, as character sequences.
pub enum CredentialModel {
    Plain(Seq<char>),
    Token(Seq<char>, Seq<char>),
    ApiKey(Seq<char>),
    Absent,
}

impl View for Credential {
    type V = CredentialModel;

    open spec fn view(&self) -> CredentialModel {
        match self {
            Credential::Plain(p) => CredentialModel::Plain(p@),
            Credential::Token { token, salt } => CredentialModel::Token(token@, salt@),
            Credential::ApiKey(k) => CredentialModel::ApiKey(k@),
            Credential::Absent => CredentialModel::Absent,
        }
    }
}

/// The response format a client asks for (`f=`).
#[derive(Debug, Clone, Copy, PartialEq, Eq, Structural)]
pub enum Format {
    Json,
    Xml,
}

impl Default for Format {
    fn default() -> (r: Self)
        ensures
            r == Format::Json,
    {
        Format::Json
    }
}

/// The query-string parameters that authentication reads.
pub struct RawAuthParams {
    pub u: Option<String>,
    pub p: Option<String>,
    pub t: Option<String>,
    pub s: Option<String>,
    pub api_key: Option<String>,
    pub c: Option<String>,
    pub v: Option<String>,
    pub f: Option<String>,
}

/// The credential a request presents: an API key wins, then a token with its
/// salt, then a plain password.
pub open spec fn credential_of_params(p: RawAuthParams) -> CredentialModel {
    if p.api_key is Some {
        CredentialModel::ApiKey(p.api_key->0@)
    } else if p.t is Some && p.s is Some {
        CredentialModel::Token(p.t->0@, p.s->0@)
    } else if p.p is Some {
        CredentialModel::Plain(p.p->0@)
    } else {
        CredentialModel::Absent
    }
}

/// The API version assumed when a client names none.
pub open spec fn default_version() -> Seq<char> {
    "1.16.1"@
}

/// Whether `a` is what the parameters `p` describe.
pub open spec fn auth_from_params(a: SubsonicAuth, p: RawAuthParams) -> bool {
    &&& a.username == p.u
    &&& a.credential@ == credential_of_params(p)
    &&& a.client@ == (match p.c {
        Some(c) => c@,
        None => Seq::<char>::empty(),
    })
    &&& a.version@ == (match p.v {
        Some(v) => v@,
        None => default_version(),
    })
    &&& a.format == (if p.f is Some && p.f->0@ == "xml"@ {
        Format::Xml
    } else {
        Format::Json
    })
}

// ── Plain passwords ───────────────────────────────────────────────────────────

/// Whether `c` is a hexadecimal digit.
pub open spec fn is_hex_char(c: char) -> bool {
    ||| 48 <= code(c) <= 57
    ||| 65 <= code(c) <= 70
    ||| 97 <= code(c) <= 102
}

/// The value of the hexadecimal digit `c`.
pub open spec fn hex_char_value(c: char) -> int {
    if code(c) <= 57 {
        code(c) - 48
    } else if code(c) <= 70 {
        code(c) - 55
    } else {
        code(c) - 87
    }
}

/// Whether the byte `x` is the ASCII code of a hexadecimal digit.
pub open spec fn is_hex_byte(x: u8) -> bool {
    ||| 48 <= x <= 57
    ||| 65 <= x <= 70
    ||| 97 <= x <= 102
}

/// The value of the hexadecimal digit whose ASCII code is `x`.
pub open spec fn hex_byte_value(x: u8) -> int {
    if x <= 57 {
        x - 48
    } else if x <= 70 {
        x - 55
    } else {
        x - 87
    }
}

/// The byte that a two-byte group stands for, as `u8::from_str_radix` with
/// radix 16 reads it: two hex digits, or `+` and one hex digit.  Any other
/// group (a non-digit, or bytes of a non-ASCII character) is no number.
pub open spec fn group_value(a: u8, b: u8) -> Option<u8> {
    if is_hex_byte(a) && is_hex_byte(b) {
        Some((16 * hex_byte_value(a) + hex_byte_value(b)) as u8)
    } else if a == 43 && is_hex_byte(b) {
        Some(hex_byte_value(b) as u8)
    } else {
        None
    }
}

/// The bytes that hex-decoding `bytes` from offset `i` on yields, two bytes
/// at a time: each group that is a number gives its byte, the others are
/// skipped, and a single byte left at the end is skipped too.
pub open spec fn decode_groups(bytes: Seq<u8>, i: int) -> Seq<u8>
    decreases bytes.len() - i,
{
    if i < 0 || i + 2 > bytes.len() {
        Seq::empty()
    } else {
        (match group_value(bytes[i], bytes[i + 1]) {
            Some(x) => seq![x],
            None => Seq::empty(),
        }) + decode_groups(bytes, i + 2)
    }
}

/// The `enc:` prefix that marks a hex-encoded password.
pub open spec fn enc_prefix() -> Seq<char> {
    seq!['e', 'n', 'c', ':']
}

pub open spec fn has_enc_prefix(p: Seq<char>) -> bool {
    p.len() >= 4 && p.subrange(0, 4) == enc_prefix()
}

/// The password a `p=` value stands for: with the `enc:` prefix, the UTF-8
/// text of the bytes that hex-decoding the rest of the value (its UTF-8 bytes
/// after the four of the prefix) yields, empty when they are not UTF-8;
/// otherwise the value itself.
pub open spec fn decode_plain_model(p: Seq<char>) -> Seq<char> {
    if has_enc_prefix(p) {
        let b = decode_groups(encode_utf8(p), 4);
        if valid_utf8(b) {
            decode_utf8(b)
        } else {
            Seq::empty()
        }
    } else {
        p
    }
}

/// `String::from_utf8`: the text whose UTF-8 encoding `bytes` is, if it is one.
#[verifier::external_body]
fn string_from_utf8(bytes: Vec<u8>) -> (r: Option<String>)
    ensures
        r is Some <==> valid_utf8(bytes@),
        r is Some ==> r->0@ == decode_utf8(bytes@),
{
    String::from_utf8(bytes).ok()
}

fn is_hex_b(x: u8) -> (r: bool)
    ensures
        r == is_hex_byte(x),
{
    (48 <= x && x <= 57) || (65 <= x && x <= 70) || (97 <= x && x <= 102)
}

fn hex_value_b(x: u8) -> (r: u8)
    requires
        is_hex_byte(x),
    ensures
        r == hex_byte_value(x),
{
    if x <= 57 {
        x - 48
    } else if x <= 70 {
        x - 55
    } else {
        x - 87
    }
}

fn group_byte(a: u8, b: u8) -> (r: Option<u8>)
    ensures
        r == group_value(a, b),
{
    if is_hex_b(a) && is_hex_b(b) {
        Some(16 * hex_value_b(a) + hex_value_b(b))
    } else if a == 43 && is_hex_b(b) {
        Some(hex_value_b(b))
    } else {
        None
    }
}

/// Hex-decodes `bytes` from offset `start` on, two bytes at a time.
fn decode_hex_groups(bytes: &[u8], start: usize) -> (r: Vec<u8>)
    ensures
        r@ == decode_groups(bytes@, start as int),
{
    let n = bytes.len();
    let mut out: Vec<u8> = Vec::new();
    let mut i: usize = start;
    assert(out@ + decode_groups(bytes@, i as int) =~= decode_groups(bytes@, start as int));
    while i < n && n - i >= 2
        invariant
            n == bytes@.len(),
            start <= i,
            out@ + decode_groups(bytes@, i as int) == decode_groups(bytes@, start as int),
        decreases n - i,
    {
        let ghost old_out = out@;
        let ghost rest = decode_groups(bytes@, i + 2);
        match group_byte(bytes[i], bytes[i + 1]) {
            Some(x) => {
                out.push(x);
                assert(old_out + (seq![x] + rest) =~= out@ + rest);
            },
            None => {
                assert(Seq::<u8>::empty() + rest =~= rest);
            },
        }
        i = i + 2;
    }
    assert(decode_groups(bytes@, i as int) =~= Seq::<u8>::empty());
    assert(out@ + Seq::<u8>::empty() =~= out@);
    out
}

/// Whether `v` starts with `enc:`.
fn starts_with_enc(v: &Vec<char>) -> (r: bool)
    ensures
        r == has_enc_prefix(v@),
{
    if v.len() < 4 {
        return false;
    }
    let r = v[0] == 'e' && v[1] == 'n' && v[2] == 'c' && v[3] == ':';
    assert(r == (v@.subrange(0, 4) =~= enc_prefix()));
    r
}

/// Decodes the `p=` parameter: strips the `enc:` prefix and hex-decodes if
/// present, otherwise returns the value as-is.
pub fn decode_plain_password(p: &str) -> (r: String)
    ensures
        r@ == decode_plain_model(p@),
{
    let v = chars_of(p);
    if starts_with_enc(&v) {
        let bytes = decode_hex_groups(p.as_bytes(), 4);
        match string_from_utf8(bytes) {
            Some(s) => s,
            None => String::new(),
        }
    } else {
        String::from_str(p)
    }
}

// ── Extraction and validation ─────────────────────────────────────────────────

impl RawAuthParams {
    /// The authentication a request carries.
    pub fn into_auth(self) -> (r: SubsonicAuth)
        ensures
            auth_from_params(r, self),
    {
        let ghost params = self;
        let RawAuthParams { u, p, t, s, api_key, c, v, f } = self;
        let credential = match api_key {
            Some(key) => Credential::ApiKey(key),
            None => match (t, s) {
                (Some(token), Some(salt)) => Credential::Token { token, salt },
                _ => match p {
                    Some(plain) => Credential::Plain(plain),
                    None => Credential::Absent,
                },
            },
        };
        let format = match &f {
            Some(fmt) => {
                let fv = chars_of(fmt.as_str());
                if chars_eq_str(&fv, "xml") {
                    Format::Xml
                } else {
                    Format::Json
                }
            },
            None => Format::Json,
        };
        let client = match c {
            Some(c) => c,
            None => String::new(),
        };
        let version = match v {
            Some(v) => v,
            None => String::from_str("1.16.1"),
        };
        SubsonicAuth { username: u, credential, client, version, format }
    }
}

/// The user name a request names, empty where it names none.
pub open spec fn username_or_empty(u: Option<String>) -> Seq<char> {
    match u {
        Some(s) => s@,
        None => Seq::empty(),
    }
}

/// Whether `k` is one of the configured API keys.
pub open spec fn key_listed(keys: Seq<String>, k: Seq<char>) -> bool {
    exists|i: int| 0 <= i < keys.len() && #[trigger] keys[i]@ == k
}

/// Whether `cfg` accepts the credential `cred` presented for `username`.
pub open spec fn accepts(cred: CredentialModel, username: Seq<char>, cfg: AuthConfig) -> bool {
    match cred {
        CredentialModel::ApiKey(k) => key_listed(cfg.api_keys@, k),
        CredentialModel::Token(t, s) => username == cfg.username@ && t == token_model(
            cfg.password@,
            s,
        ),
        CredentialModel::Plain(p) => username == cfg.username@ && decode_plain_model(p)
            == cfg.password@,
        CredentialModel::Absent => false,
    }
}

/// The error code a rejected credential gets.
pub open spec fn rejection_code(cred: CredentialModel) -> ErrorCode {
    if cred is ApiKey {
        ErrorCode::InvalidApiKey
    } else {
        ErrorCode::WrongCredentials
    }
}

/// The message a rejected credential gets.
pub open spec fn rejection_message(cred: CredentialModel) -> Seq<char> {
    if cred is ApiKey {
        "Invalid API key."@
    } else {
        "Wrong username or password."@
    }
}

fn key_in(keys: &Vec<String>, key: &String) -> (r: bool)
    ensures
        r == key_listed(keys@, key@),
{
    let mut i: usize = 0;
    while i < keys.len()
        invariant
            i <= keys@.len(),
            forall|j: int| 0 <= j < i ==> keys@[j]@ != key@,
        decreases keys.len() - i,
    {
        if keys[i] == *key {
            assert(keys@[i as int]@ == key@);
            return true;
        }
        i = i + 1;
    }
    false
}

fn username_of(u: &Option<String>) -> (r: String)
    ensures
        r@ == username_or_empty(*u),
{
    match u {
        Some(s) => s.clone(),
        None => String::new(),
    }
}

fn wrong_credentials() -> (e: SubsonicError)
    ensures
        e.code == ErrorCode::WrongCredentials,
        e.message@ == "Wrong username or password."@,
{
    SubsonicError::new(ErrorCode::WrongCredentials, "Wrong username or password.")
}

impl SubsonicAuth {
    /// Checks the credential against the configured `[nexus.auth]`.
    pub fn validate(&self, cfg: &AuthConfig) -> (r: Result<(), SubsonicError>)
        ensures
            r is Ok <==> accepts(self.credential@, username_or_empty(self.username), *cfg),
            r is Err ==> r->Err_0.code == rejection_code(self.credential@) && r->Err_0.message@
                == rejection_message(self.credential@),
    {
        match &self.credential {
            Credential::ApiKey(key) => {
                if key_in(&cfg.api_keys, key) {
                    Ok(())
                } else {
                    Err(SubsonicError::new(ErrorCode::InvalidApiKey, "Invalid API key."))
                }
            },
            Credential::Token { token, salt } => {
                let username = username_of(&self.username);
                if username != cfg.username {
                    return Err(wrong_credentials());
                }
                let expected = subsonic_token(cfg.password.as_str(), salt.as_str());
                if *token == expected {
                    Ok(())
                } else {
                    Err(wrong_credentials())
                }
            },
            Credential::Plain(p) => {
                let username = username_of(&self.username);
                if username != cfg.username {
                    return Err(wrong_credentials());
                }
                let password = decode_plain_password(p.as_str());
                if password == cfg.password {
                    Ok(())
                } else {
                    Err(wrong_credentials())
                }
            },
            Credential::Absent => Err(wrong_credentials()),
        }
    }
}

/// Whether a request gets through authentication: always with no
/// `[nexus.auth]` configured, and otherwise exactly when the configuration
/// accepts the credential it presents.
pub open spec fn request_admitted(params: RawAuthParams, cfg: Option<AuthConfig>) -> bool {
    match cfg {
        None => true,
        Some(c) => accepts(credential_of_params(params), username_or_empty(params.u), c),
    }
}

/// Extracts the authentication of a request and, if `[nexus.auth]` is
/// configured, rejects wrong credentials; with no auth configured every
/// request is let through.
pub fn authenticate(params: RawAuthParams, cfg: &Option<AuthConfig>) -> (r: Result<
    SubsonicAuth,
    SubsonicError,
>)
    ensures
        r is Ok <==> request_admitted(params, *cfg),
        match r {
            Ok(a) => auth_from_params(a, params) && (cfg is Some ==> accepts(
                credential_of_params(params),
                username_or_empty(params.u),
                cfg->0,
            )),
            Err(e) => cfg is Some && !accepts(
                credential_of_params(params),
                username_or_empty(params.u),
                cfg->0,
            ) && e.code == rejection_code(credential_of_params(params)) && e.message@
                == rejection_message(credential_of_params(params)),
        },
{
    let auth = params.into_auth();
    match cfg {
        Some(c) => match auth.validate(c) {
            Ok(()) => Ok(auth),
            Err(e) => Err(e),
        },
        None => Ok(auth),
    }
}

// ── Laws ──────────────────────────────────────────────────────────────────────

proof fn lemma_hex_lower_digit(d: int)
    requires
        0 <= d < 16,
    ensures
        code(hex_lower_digit(d)) < 128,
        is_hex_char(hex_lower_digit(d)),
        hex_char_value(hex_lower_digit(d)) == d,
{
}

/// Characters `2 * i` and `2 * i + 1` of `h` are the high and the low
/// hexadecimal digit of byte `i` of `b`, each in either case.
pub open spec fn hex_pair_at(h: Seq<char>, b: Seq<u8>, i: int) -> bool {
    &&& is_hex_char(h[2 * i])
    &&& hex_char_value(h[2 * i]) == b[i] / 16
    &&& is_hex_char(h[2 * i + 1])
    &&& hex_char_value(h[2 * i + 1]) == b[i] % 16
}

/// `h` is the hexadecimal form of `b`, two digits per byte, high digit first,
/// each digit in either case.
pub open spec fn is_hex_of(h: Seq<char>, b: Seq<u8>) -> bool {
    &&& h.len() == 2 * b.len()
    &&& forall|i: int| 0 <= i < b.len() ==> #[trigger] hex_pair_at(h, b, i)
}

/// The lower-case hexadecimal form of the bytes is one of their hex forms.
pub proof fn lemma_hex_lower_is_hex_of(b: Seq<u8>)
    ensures
        is_hex_of(hex_lower(b), b),
    decreases b.len(),
{
    if b.len() > 0 {
        let n = b.len() as int;
        let init = b.drop_last();
        let x = b.last();
        lemma_hex_lower_is_hex_of(init);
        lemma_hex_lower_digit((x / 16) as int);
        lemma_hex_lower_digit((x % 16) as int);
        let h = hex_lower(b);
        let h0 = hex_lower(init);
        assert forall|i: int| 0 <= i < b.len() implies #[trigger] hex_pair_at(h, b, i) by {
            if i < n - 1 {
                assert(hex_pair_at(h0, init, i));
                assert(init[i] == b[i]);
                assert(h[2 * i] == h0[2 * i]);
                assert(h[2 * i + 1] == h0[2 * i + 1]);
            } else {
                assert(h[2 * i] == hex_lower_digit((x / 16) as int));
                assert(h[2 * i + 1] == hex_lower_digit((x % 16) as int));
            }
        }
    }
}

/// The UTF-8 encoding of ASCII characters is their codes, one byte each.
/// Whether `c` is a digit or a lower-case letter `a` to `f`.
pub open spec fn is_lower_hex_char(c: char) -> bool {
    48 <= code(c) <= 57 || 97 <= code(c) <= 102
}

/// A token is written in lower-case hexadecimal, two digits per byte, high
/// digit first: every character is `0`-`9` or `a`-`f`, and the digits read
/// back give the bytes.
pub proof fn law_hex_lower_digits(b: Seq<u8>)
    ensures
        is_hex_of(hex_lower(b), b),
        forall|i: int| 0 <= i < hex_lower(b).len() ==> is_lower_hex_char(#[trigger] hex_lower(b)[i]),
    decreases b.len(),
{
    lemma_hex_lower_is_hex_of(b);
    if b.len() > 0 {
        let init = b.drop_last();
        let x = b.last();
        law_hex_lower_digits(init);
        let h = hex_lower(b);
        let h0 = hex_lower(init);
        assert(h =~= h0.push(hex_lower_digit((x / 16) as int)).push(
            hex_lower_digit((x % 16) as int),
        ));
        assert forall|i: int| 0 <= i < h.len() implies is_lower_hex_char(#[trigger] h[i]) by {
            if i < h0.len() {
                assert(h[i] == h0[i]);
            }
        }
    }
}

proof fn lemma_encode_ascii(cs: Seq<char>)
    requires
        forall|i: int| 0 <= i < cs.len() ==> code(#[trigger] cs[i]) < 128,
    ensures
        encode_utf8(cs).len() == cs.len(),
        forall|i: int| 0 <= i < cs.len() ==> encode_utf8(cs)[i] == code(#[trigger] cs[i]),
    decreases cs.len(),
{
    if cs.len() > 0 {
        let c0 = cs[0] as u32;
        assert(code(cs[0]) < 128);
        assert((c0 & 0x7F) as u8 == c0) by (bit_vector)
            requires
                c0 < 128,
        ;
        let rest = cs.drop_first();
        assert forall|i: int| 0 <= i < rest.len() implies code(#[trigger] rest[i]) < 128 by {
            assert(rest[i] == cs[i + 1]);
        }
        lemma_encode_ascii(rest);
        let e = encode_utf8(cs);
        assert(e =~= seq![(c0 & 0x7F) as u8] + encode_utf8(rest));
        assert forall|i: int| 0 <= i < cs.len() implies e[i] == code(#[trigger] cs[i]) by {
            if i > 0 {
                assert(rest[i - 1] == cs[i]);
            }
        }
    }
}

/// Decoding the UTF-8 bytes of `enc:` followed by a hex form of `b`, from
/// the byte after the prefix on, gives `b` back.
proof fn lemma_decode_hex_form(h: Seq<char>, b: Seq<u8>, k: int)
    requires
        is_hex_of(h, b),
        0 <= k <= b.len(),
    ensures
        decode_groups(encode_utf8(enc_prefix() + h), 4 + 2 * k) == b.subrange(k, b.len() as int),
    decreases b.len() - k,
{
    let p = enc_prefix() + h;
    let e = encode_utf8(p);
    assert forall|i: int| 0 <= i < p.len() implies code(#[trigger] p[i]) < 128 by {
        if i >= 4 {
            let j = i - 4;
            assert(p[i] == h[j]);
            let q = j / 2;
            assert(hex_pair_at(h, b, q));
            assert(j == 2 * q || j == 2 * q + 1);
        } else {
            assert(p[i] == enc_prefix()[i]);
        }
    }
    lemma_encode_ascii(p);
    if k == b.len() {
        assert(b.subrange(k, b.len() as int) =~= Seq::<u8>::empty());
    } else {
        lemma_decode_hex_form(h, b, k + 1);
        let c1 = p[4 + 2 * k];
        let c2 = p[4 + 2 * k + 1];
        assert(hex_pair_at(h, b, k));
        assert(c1 == h[2 * k]);
        assert(c2 == h[2 * k + 1]);
        assert(e[4 + 2 * k] == code(c1));
        assert(e[4 + 2 * k + 1] == code(c2));
        let x = b[k];
        assert(16 * (x / 16) + x % 16 == x);
        assert(group_value(e[4 + 2 * k], e[4 + 2 * k + 1]) == Some(x));
        assert(seq![x] + b.subrange(k + 1, b.len() as int) =~= b.subrange(k, b.len() as int));
    }
}

/// A password sent hex-encoded (`enc:` followed by the hexadecimal form of
/// its UTF-8 bytes, in upper, lower or mixed case) decodes back to the
/// password.
pub proof fn law_enc_password_roundtrip_any_case(s: Seq<char>, h: Seq<char>)
    requires
        is_hex_of(h, encode_utf8(s)),
    ensures
        decode_plain_model(enc_prefix() + h) == s,
{
    let p = enc_prefix() + h;
    assert(p.subrange(0, 4) =~= enc_prefix());
    lemma_decode_hex_form(h, encode_utf8(s), 0);
    assert(encode_utf8(s).subrange(0, encode_utf8(s).len() as int) =~= encode_utf8(s));
}

/// A password sent hex-encoded in lower case (`enc:` followed by the
/// lower-case hex of its UTF-8 bytes) decodes back to the password.
pub proof fn law_enc_password_roundtrip(s: Seq<char>)
    ensures
        decode_plain_model(enc_prefix() + hex_lower(encode_utf8(s))) == s,
{
    lemma_hex_lower_is_hex_of(encode_utf8(s));
    law_enc_password_roundtrip_any_case(s, hex_lower(encode_utf8(s)));
}

/// A value without the `enc:` prefix is the password itself.
pub proof fn law_plain_password_verbatim(p: Seq<char>)
    requires
        !has_enc_prefix(p),
    ensures
        decode_plain_model(p) == p,
{
}

/// A token that a client computes from the configured password and any salt
/// is accepted for the configured user.
pub proof fn law_token_accepted(cfg: AuthConfig, salt: Seq<char>)
    ensures
        accepts(
            CredentialModel::Token(token_model(cfg.password@, salt), salt),
            cfg.username@,
            cfg,
        ),
{
}

/// Access control, for every request: with no `[nexus.auth]` every request
/// gets through; with one, a request gets through exactly when the
/// authentication extracted from it validates against the configuration, and
/// a rejected request that presents no API key is answered "wrong username
/// or password".
pub proof fn law_access_control(params: RawAuthParams, a: SubsonicAuth, cfg: AuthConfig)
    requires
        auth_from_params(a, params),
    ensures
        request_admitted(params, None),
        request_admitted(params, Some(cfg)) <==> accepts(
            a.credential@,
            username_or_empty(a.username),
            cfg,
        ),
        params.api_key is None ==> rejection_code(credential_of_params(params))
            == ErrorCode::WrongCredentials,
{
}

/// A request that presents no credential is never accepted.
pub proof fn law_no_credential_rejected(username: Seq<char>, cfg: AuthConfig)
    ensures
        !accepts(CredentialModel::Absent, username, cfg),
        rejection_code(CredentialModel::Absent) == ErrorCode::WrongCredentials,
{
}

} // verus!
