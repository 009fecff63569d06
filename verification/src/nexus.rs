//! Nexus core: the entity-ID engine, upstream URL building, and the rules that
//! turn canonical rows into response identifiers and index groups.

use vstd::prelude::*;
use vstd::utf8::encode_utf8;
use crate::text::{
    chars_of, contains_chars, contains_seq, decimal_i64, extend_chars, int_decimal, is_ascii_digit, lemma_nat_decimal_digits, lemma_parse_decimal_roundtrip, nat_decimal, parse_i32_chars, parse_i32_spec, push_char, string_of, subvec,
};
use crate::template::{find_char, lemma_find_char_range};
use crate::token::{hex_digit_upper, hex_upper_digit, subsonic_token, token_model};
use crate::config::{NexusConfig, ServerConfig};
use crate::template::{strip_leading_articles, strip_articles_model};
use crate::text::{ascii_upper, code, to_ascii_upper};

verus! {

// ── Entity ID engine ──────────────────────────────────────────────────────────

/// The three supported entity-ID template forms.
#[derive(Debug, Clone, Copy, PartialEq, Eq, Structural)]
pub enum IdTemplate {
    /// `{upstream_id}` — use the upstream's own ID directly.
    UpstreamOnly,
    /// `{server_name}:{upstream_id}` — prefix with the server name.
    ServerNamePrefix,
    /// `{server_id}:{upstream_id}` — prefix with the server's DB row id.
    ServerIdPrefix,
}

/// The template form a configuration string selects: `{server_name}` wins,
/// then `{server_id}`; anything else means upstream IDs as they are.
pub open spec fn id_template_of(s: Seq<char>) -> IdTemplate {
    if contains_seq(s, "{server_name}"@) {
        IdTemplate::ServerNamePrefix
    } else if contains_seq(s, "{server_id}"@) {
        IdTemplate::ServerIdPrefix
    } else {
        IdTemplate::UpstreamOnly
    }
}

impl IdTemplate {
    /// Detect the template variant from the config string.
    pub fn from_config(s: &str) -> (t: Self)
        ensures
            t == id_template_of(s@),
    {
        let v = chars_of(s);
        let name_pat = chars_of("{server_name}");
        let id_pat = chars_of("{server_id}");
        if contains_chars(&v, &name_pat) {
            IdTemplate::ServerNamePrefix
        } else if contains_chars(&v, &id_pat) {
            IdTemplate::ServerIdPrefix
        } else {
            IdTemplate::UpstreamOnly
        }
    }
}

/// The nexus ID of an entity.
pub open spec fn entity_id_model(
    template: IdTemplate,
    server_name: Seq<char>,
    server_db_id: i32,
    upstream_id: Seq<char>,
) -> Seq<char> {
    match template {
        IdTemplate::UpstreamOnly => upstream_id,
        IdTemplate::ServerNamePrefix => server_name + seq![':'] + upstream_id,
        IdTemplate::ServerIdPrefix => int_decimal(server_db_id as int) + seq![':'] + upstream_id,
    }
}

/// Build a nexus entity ID from the canonical server row.
pub fn build_entity_id(
    template: IdTemplate,
    server_name: &str,
    server_db_id: i32,
    upstream_id: &str,
) -> (r: String)
    ensures
        r@ == entity_id_model(template, server_name@, server_db_id, upstream_id@),
{
    match template {
        IdTemplate::UpstreamOnly => String::from_str(upstream_id),
        IdTemplate::ServerNamePrefix => {
            let mut r = String::from_str(server_name);
            push_char(&mut r, ':');
            r.append(upstream_id);
            r
        },
        IdTemplate::ServerIdPrefix => {
            let mut v = decimal_i64(server_db_id as i64);
            v.push(':');
            let up = chars_of(upstream_id);
            extend_chars(&mut v, &up);
            string_of(&v)
        },
    }
}

/// How a server was identified in a prefixed nexus ID.
pub enum ServerHint {
    Name(String),
    DbId(i32),
}

/// A parsed nexus entity ID.
pub struct ParsedId {
    /// Optional hint about which server this ID belongs to.
    pub server_hint: Option<ServerHint>,
    /// The upstream entity ID on the canonical server.
    pub upstream_id: String,
}

/// The mathematical content of a [`ServerHint`].
pub enum HintModel {
    Name(Seq<char>),
    DbId(i32),
}

pub open spec fn hint_model(h: Option<ServerHint>) -> Option<HintModel> {
    match h {
        Some(ServerHint::Name(n)) => Some(HintModel::Name(n@)),
        Some(ServerHint::DbId(i)) => Some(HintModel::DbId(i)),
        None => None,
    }
}

/// The server hint and upstream ID a nexus ID stands for.  With a prefixed
/// template the ID splits at its first `:`; an ID without `:` is taken whole as
/// the upstream ID, and a server-id prefix that is not a number gives no hint.
pub open spec fn parse_entity_id_model(template: IdTemplate, nexus_id: Seq<char>) -> (
    Option<HintModel>,
    Seq<char>,
) {
    let c = find_char(nexus_id, ':', 0);
    match template {
        IdTemplate::UpstreamOnly => (None, nexus_id),
        _ => if c < nexus_id.len() {
            let prefix = nexus_id.take(c);
            let upstream = nexus_id.skip(c + 1);
            let hint = match template {
                IdTemplate::ServerNamePrefix => Some(HintModel::Name(prefix)),
                _ => match parse_i32_spec(prefix) {
                    Some(i) => Some(HintModel::DbId(i)),
                    None => None,
                },
            };
            (hint, upstream)
        } else {
            (None, nexus_id)
        },
    }
}

impl ParsedId {
    pub open spec fn model(&self) -> (Option<HintModel>, Seq<char>) {
        (hint_model(self.server_hint), self.upstream_id@)
    }
}

/// Parse a nexus entity ID back into its components.
pub fn parse_entity_id(template: IdTemplate, nexus_id: &str) -> (p: ParsedId)
    ensures
        p.model() == parse_entity_id_model(template, nexus_id@),
{
    match template {
        IdTemplate::UpstreamOnly => ParsedId {
            server_hint: None,
            upstream_id: String::from_str(nexus_id),
        },
        _ => {
            let v = chars_of(nexus_id);
            let c = find_colon(&v);
            proof {
                lemma_find_char_range(v@, ':', 0);
            }
            if c < v.len() {
                let prefix = subvec(&v, 0, c);
                let upstream = subvec(&v, c + 1, v.len());
                let hint = match template {
                    IdTemplate::ServerNamePrefix => Some(ServerHint::Name(string_of(&prefix))),
                    _ => match parse_i32_chars(&prefix) {
                        Some(i) => Some(ServerHint::DbId(i)),
                        None => None,
                    },
                };
                ParsedId { server_hint: hint, upstream_id: string_of(&upstream) }
            } else {
                ParsedId { server_hint: None, upstream_id: String::from_str(nexus_id) }
            }
        },
    }
}

fn find_colon(v: &Vec<char>) -> (r: usize)
    ensures
        r == find_char(v@, ':', 0),
{
    let mut i: usize = 0;
    while i < v.len() && v[i] != ':'
        invariant
            i <= v@.len(),
            find_char(v@, ':', 0) == find_char(v@, ':', i as int),
        decreases v.len() - i,
    {
        i = i + 1;
    }
    i
}

/// The cover-art ID: always `{server_db_id}:{upstream_cover_art}`.
pub open spec fn cover_art_id_model(server_db_id: i32, upstream_cover_art: Seq<char>) -> Seq<
    char,
> {
    int_decimal(server_db_id as int) + seq![':'] + upstream_cover_art
}

/// Build a cover-art ID.  Always uses `{server_db_id}:{upstream_cover_art}`
/// regardless of the entity-ID template, because cover art needs the server
/// to be unambiguous for proxying.
pub fn build_cover_art_id(server_db_id: i32, upstream_cover_art: &str) -> (r: String)
    ensures
        r@ == cover_art_id_model(server_db_id, upstream_cover_art@),
{
    build_entity_id(IdTemplate::ServerIdPrefix, "", server_db_id, upstream_cover_art)
}

/// The server id and upstream cover-art id a cover-art ID stands for: split at
/// the first `:`, the part before it read as an `i32`.
pub open spec fn parse_cover_art_id_model(nexus_id: Seq<char>) -> Option<(i32, Seq<char>)> {
    let c = find_char(nexus_id, ':', 0);
    if c < nexus_id.len() {
        match parse_i32_spec(nexus_id.take(c)) {
            Some(i) => Some((i, nexus_id.skip(c + 1))),
            None => None,
        }
    } else {
        None
    }
}

/// Parse a nexus cover-art ID back to `(server_db_id, upstream_cover_art_id)`.
pub fn parse_cover_art_id(nexus_id: &str) -> (r: Option<(i32, &str)>)
    ensures
        r is Some <==> parse_cover_art_id_model(nexus_id@) is Some,
        r matches Some((i, s)) ==> parse_cover_art_id_model(nexus_id@) == Some((i, s@)),
{
    let v = chars_of(nexus_id);
    let c = find_colon(&v);
    proof {
        lemma_find_char_range(v@, ':', 0);
    }
    if c >= v.len() {
        return None;
    }
    let prefix = subvec(&v, 0, c);
    match parse_i32_chars(&prefix) {
        Some(i) => {
            let rest = nexus_id.substring_char(c + 1, v.len());
            assert(rest@ =~= nexus_id@.skip(c + 1));
            Some((i, rest))
        },
        None => None,
    }
}

proof fn lemma_decimal_has_no_colon(n: i32)
    ensures
        forall|i: int|
            0 <= i < int_decimal(n as int).len() ==> #[trigger] int_decimal(n as int)[i] != ':',
{
    if n < 0 {
        lemma_nat_decimal_digits((-n) as nat);
        let d = nat_decimal((-n) as nat);
        assert forall|i: int| 0 <= i < int_decimal(n as int).len() implies #[trigger] int_decimal(
            n as int,
        )[i] != ':' by {
            if i > 0 {
                assert(int_decimal(n as int)[i] == d[i - 1]);
                assert(is_ascii_digit(d[i - 1]));
            }
        }
    } else {
        lemma_nat_decimal_digits(n as nat);
        let d = nat_decimal(n as nat);
        assert forall|i: int| 0 <= i < int_decimal(n as int).len() implies #[trigger] int_decimal(
            n as int,
        )[i] != ':' by {
            assert(is_ascii_digit(d[i]));
        }
    }
}

proof fn lemma_find_after_prefix(p: Seq<char>, rest: Seq<char>)
    requires
        forall|i: int| 0 <= i < p.len() ==> #[trigger] p[i] != ':',
    ensures
        find_char(p + seq![':'] + rest, ':', 0) == p.len(),
        (p + seq![':'] + rest).take(p.len() as int) == p,
        (p + seq![':'] + rest).skip(p.len() as int + 1) == rest,
{
    let s = p + seq![':'] + rest;
    lemma_find_char_range(s, ':', 0);
    let f = find_char(s, ':', 0);
    assert(s[p.len() as int] == ':');
    if f < p.len() {
        assert(s[f] == p[f]);
    }
    assert(s.take(p.len() as int) =~= p);
    assert(s.skip(p.len() as int + 1) =~= rest);
}

/// Building a nexus ID and parsing it back gives the parts it was built from:
/// the upstream ID always, and the server hint for the prefixed forms (a
/// server name must not itself contain `:`).
pub proof fn law_entity_id_roundtrip(
    template: IdTemplate,
    server_name: Seq<char>,
    server_db_id: i32,
    upstream_id: Seq<char>,
)
    requires
        template == IdTemplate::ServerNamePrefix ==> forall|i: int|
            0 <= i < server_name.len() ==> #[trigger] server_name[i] != ':',
    ensures
        parse_entity_id_model(
            template,
            entity_id_model(template, server_name, server_db_id, upstream_id),
        ) == (match template {
            IdTemplate::UpstreamOnly => (None::<HintModel>, upstream_id),
            IdTemplate::ServerNamePrefix => (Some(HintModel::Name(server_name)), upstream_id),
            IdTemplate::ServerIdPrefix => (Some(HintModel::DbId(server_db_id)), upstream_id),
        }),
{
    match template {
        IdTemplate::UpstreamOnly => {},
        IdTemplate::ServerNamePrefix => {
            lemma_find_after_prefix(server_name, upstream_id);
        },
        IdTemplate::ServerIdPrefix => {
            lemma_decimal_has_no_colon(server_db_id);
            lemma_find_after_prefix(int_decimal(server_db_id as int), upstream_id);
            lemma_parse_decimal_roundtrip(server_db_id);
        },
    }
}

/// A cover-art ID parses back to the server id and upstream cover-art id it
/// was built from.
pub proof fn law_cover_art_id_roundtrip(server_db_id: i32, upstream_cover_art: Seq<char>)
    ensures
        parse_cover_art_id_model(cover_art_id_model(server_db_id, upstream_cover_art)) == Some(
            (server_db_id, upstream_cover_art),
        ),
{
    lemma_decimal_has_no_colon(server_db_id);
    lemma_find_after_prefix(int_decimal(server_db_id as int), upstream_cover_art);
    lemma_parse_decimal_roundtrip(server_db_id);
}


// ── Upstream URL builder ──────────────────────────────────────────────────────

/// Bytes kept as they are in a URL: ASCII letters and digits and `-._~`.
pub open spec fn is_unreserved(b: u8) -> bool {
    (48 <= b <= 57) || (65 <= b <= 90) || (97 <= b <= 122) || b == 45 || b == 46 || b == 95 || b
        == 126
}

/// One byte percent-encoded: itself when unreserved, `%XX` (upper-case hex) otherwise.
pub open spec fn encode_byte(b: u8) -> Seq<char> {
    if is_unreserved(b) {
        seq![b as char]
    } else {
        seq!['%', hex_upper_digit((b / 16) as int), hex_upper_digit((b % 16) as int)]
    }
}

pub open spec fn url_encode_bytes(bs: Seq<u8>) -> Seq<char>
    decreases bs.len(),
{
    if bs.len() == 0 {
        Seq::empty()
    } else {
        url_encode_bytes(bs.drop_last()) + encode_byte(bs.last())
    }
}

/// Percent-encoding of `s`: every byte of its UTF-8 encoding that is not
/// unreserved becomes `%XX`.  (The bytes of a non-ASCII character are all
/// above 0x7F, so this is the same as encoding character by character.)
pub open spec fn urlencoded_model(s: Seq<char>) -> Seq<char> {
    url_encode_bytes(encode_utf8(s))
}

/// Percent-encode everything that's not unreserved.
pub fn urlencoded(s: &str) -> (r: String)
    ensures
        r@ == urlencoded_model(s@),
{
    let bytes = s.as_bytes();
    let mut r = String::new();
    let mut i: usize = 0;
    while i < bytes.len()
        invariant
            i <= bytes@.len(),
            bytes@ == encode_utf8(s@),
            r@ == url_encode_bytes(bytes@.take(i as int)),
        decreases bytes.len() - i,
    {
        let b = bytes[i];
        assert(bytes@.take(i + 1).drop_last() =~= bytes@.take(i as int));
        let ghost before = r@;
        if (48 <= b && b <= 57) || (65 <= b && b <= 90) || (97 <= b && b <= 122) || b == 45 || b
            == 46 || b == 95 || b == 126 {
            push_char(&mut r, b as char);
        } else {
            push_char(&mut r, '%');
            push_char(&mut r, hex_digit_upper(b / 16));
            push_char(&mut r, hex_digit_upper(b % 16));
        }
        assert(r@ =~= before + encode_byte(b));
        i = i + 1;
    }
    assert(bytes@.take(bytes@.len() as int) =~= bytes@);
    r
}

/// The characters an encoded value may hold: unreserved ones and `%`.
pub open spec fn url_safe(c: char) -> bool {
    let n = code(c);
    ||| n == 37
    ||| 48 <= n <= 57
    ||| 65 <= n <= 90
    ||| 97 <= n <= 122
    ||| n == 45
    ||| n == 46
    ||| n == 95
    ||| n == 126
}

proof fn lemma_encode_bytes_safe(bs: Seq<u8>)
    ensures
        forall|i: int| 0 <= i < url_encode_bytes(bs).len() ==> url_safe(#[trigger] url_encode_bytes(bs)[i]),
    decreases bs.len(),
{
    if bs.len() > 0 {
        lemma_encode_bytes_safe(bs.drop_last());
        let pre = url_encode_bytes(bs.drop_last());
        let piece = encode_byte(bs.last());
        let b = bs.last();
        assert forall|i: int| 0 <= i < piece.len() implies url_safe(#[trigger] piece[i]) by {
            if !is_unreserved(b) {
                assert(piece[1] == hex_upper_digit((b / 16) as int));
                assert(piece[2] == hex_upper_digit((b % 16) as int));
            }
        }
        assert forall|i: int| 0 <= i < url_encode_bytes(bs).len() implies url_safe(
            #[trigger] url_encode_bytes(bs)[i],
        ) by {
            if i < pre.len() {
                assert(url_encode_bytes(bs)[i] == pre[i]);
            } else {
                assert(url_encode_bytes(bs)[i] == piece[i - pre.len()]);
            }
        }
    }
}

/// An encoded parameter value holds only unreserved characters and `%`: no
/// `&`, `=`, `?`, `#` or space, so it can never add or split a parameter of
/// the upstream URL.
pub proof fn law_urlencoded_is_url_safe(s: Seq<char>)
    ensures
        forall|i: int| 0 <= i < urlencoded_model(s).len() ==> url_safe(#[trigger] urlencoded_model(s)[i]),
{
    lemma_encode_bytes_safe(encode_utf8(s));
}

/// The value of an upper-case hexadecimal digit (`0`-`9`, `A`-`F`); -1 for
/// any other character.
pub open spec fn upper_hex_value(c: char) -> int {
    if 48 <= c as u32 <= 57 {
        c as u32 - 48
    } else if 65 <= c as u32 <= 70 {
        c as u32 - 55
    } else {
        -1
    }
}

/// Percent-decoding: each `%XY` (upper-case hex digits) is the byte `0xXY`,
/// every other character is the byte of its code.
pub open spec fn url_decode(t: Seq<char>) -> Seq<u8>
    decreases t.len(),
{
    if t.len() == 0 {
        Seq::empty()
    } else if t.len() >= 3 && t[t.len() - 3] == '%' {
        url_decode(t.take(t.len() - 3)).push(
            (16 * upper_hex_value(t[t.len() - 2]) + upper_hex_value(t[t.len() - 1])) as u8,
        )
    } else {
        url_decode(t.drop_last()).push(t.last() as u32 as u8)
    }
}

proof fn lemma_encoded_ends_without_percent(bs: Seq<u8>)
    ensures
        ({
            let t = url_encode_bytes(bs);
            &&& t.len() >= 1 ==> t[t.len() - 1] != '%'
            &&& t.len() >= 2 ==> t[t.len() - 2] != '%'
            &&& t.len() >= bs.len()
        }),
    decreases bs.len(),
{
    if bs.len() > 0 {
        lemma_encoded_ends_without_percent(bs.drop_last());
        let x = bs.last();
        let t0 = url_encode_bytes(bs.drop_last());
        let t = url_encode_bytes(bs);
        assert(t == t0 + encode_byte(x));
        if is_unreserved(x) {
            assert((x as char) as u32 == x as u32);
            assert(t[t.len() - 1] == x as char);
            if t.len() >= 2 {
                assert(t[t.len() - 2] == t0[t0.len() - 1]);
            }
        } else {
            assert(t[t.len() - 1] == hex_upper_digit((x % 16) as int));
            assert(t[t.len() - 2] == hex_upper_digit((x / 16) as int));
        }
    }
}

/// Percent-encoding can be undone: decoding the encoding of any bytes gives
/// those bytes back (the hex digits are upper case).
pub proof fn law_url_encoding_decodes(bs: Seq<u8>)
    ensures
        url_decode(url_encode_bytes(bs)) == bs,
    decreases bs.len(),
{
    if bs.len() > 0 {
        let init = bs.drop_last();
        let x = bs.last();
        law_url_encoding_decodes(init);
        lemma_encoded_ends_without_percent(init);
        let t0 = url_encode_bytes(init);
        let t = url_encode_bytes(bs);
        assert(t == t0 + encode_byte(x));
        if is_unreserved(x) {
            assert(t.drop_last() =~= t0);
            assert((x as char) as u32 == x as u32);
            assert(t.last() as u32 as u8 == x);
            if t.len() >= 3 {
                assert(t[t.len() - 3] == t0[t0.len() - 2]);
            }
        } else {
            assert(t.take(t.len() - 3) =~= t0);
            assert(t[t.len() - 3] == '%');
            let hi = (x / 16) as int;
            let lo = (x % 16) as int;
            assert(upper_hex_value(hex_upper_digit(hi)) == hi);
            assert(upper_hex_value(hex_upper_digit(lo)) == lo);
            assert(16 * hi + lo == x);
        }
        assert(init.push(x) =~= bs);
    }
}

/// The percent-encoding of a text decodes to the text's UTF-8 bytes.  The
/// bytes kept as they are are exactly the unreserved ones (`A`-`Z`, `a`-`z`,
/// `0`-`9`, `-`, `.`, `_`, `~`); every other byte becomes `%` and two hex
/// digits.
pub proof fn law_urlencoded_decodes(s: Seq<char>, b: u8)
    ensures
        url_decode(urlencoded_model(s)) == encode_utf8(s),
        ((48 <= b <= 57) || (65 <= b <= 90) || (97 <= b <= 122) || b == 45 || b == 46 || b == 95
            || b == 126) ==> url_encode_bytes(seq![b]) == seq![b as char],
        !((48 <= b <= 57) || (65 <= b <= 90) || (97 <= b <= 122) || b == 45 || b == 46 || b == 95
            || b == 126) ==> url_encode_bytes(seq![b]).len() == 3 && url_encode_bytes(seq![b])[0]
            == '%',
{
    law_url_encoding_decodes(encode_utf8(s));
    assert(seq![b].drop_last() =~= Seq::<u8>::empty());
    assert(seq![b].last() == b);
    assert(url_encode_bytes(Seq::<u8>::empty()) == Seq::<char>::empty());
    assert(Seq::<char>::empty() + encode_byte(b) =~= encode_byte(b));
    assert(url_encode_bytes(seq![b]) =~= encode_byte(b));
}

/// `s` without its trailing `/` characters (std's `trim_end_matches('/')`).
pub open spec fn trim_trailing_slashes(s: Seq<char>) -> Seq<char>
    decreases s.len(),
{
    if s.len() > 0 && s.last() == '/' {
        trim_trailing_slashes(s.drop_last())
    } else {
        s
    }
}

/// `&key=value` for each extra parameter, the value percent-encoded.
pub open spec fn extra_query_model(extra: Seq<(Seq<char>, Seq<char>)>) -> Seq<char>
    decreases extra.len(),
{
    if extra.len() == 0 {
        Seq::empty()
    } else {
        extra_query_model(extra.drop_last()) + seq!['&'] + extra.last().0 + seq!['=']
            + urlencoded_model(extra.last().1)
    }
}

/// The query tail of extra parameters is built parameter by parameter, in
/// order: one parameter gives `&key=value` with the value percent-encoded,
/// and the tail of two lists of parameters, one after the other, is the tail
/// of the first followed by the tail of the second.
pub proof fn law_extra_query_per_parameter(
    a: Seq<(Seq<char>, Seq<char>)>,
    b: Seq<(Seq<char>, Seq<char>)>,
    key: Seq<char>,
    value: Seq<char>,
)
    ensures
        extra_query_model(Seq::empty()) == Seq::<char>::empty(),
        extra_query_model(seq![(key, value)]) == seq!['&'] + key + seq!['='] + urlencoded_model(
            value,
        ),
        extra_query_model(a + b) == extra_query_model(a) + extra_query_model(b),
    decreases b.len(),
{
    let one = seq![(key, value)];
    assert(one.drop_last() =~= Seq::<(Seq<char>, Seq<char>)>::empty());
    assert(one.last() == (key, value));
    assert(extra_query_model(Seq::<(Seq<char>, Seq<char>)>::empty()) == Seq::<char>::empty());
    assert(Seq::<char>::empty() + seq!['&'] =~= seq!['&']);
    assert(extra_query_model(one) =~= seq!['&'] + key + seq!['='] + urlencoded_model(value));
    if b.len() == 0 {
        assert(a + b =~= a);
        assert(extra_query_model(a) + extra_query_model(b) =~= extra_query_model(a));
    } else {
        law_extra_query_per_parameter(a, b.drop_last(), key, value);
        assert((a + b).drop_last() =~= a + b.drop_last());
        assert((a + b).last() == b.last());
        assert(extra_query_model(a + b) =~= extra_query_model(a) + extra_query_model(b));
    }
}

pub open spec fn pairs_view(extra: Seq<(&str, &str)>) -> Seq<(Seq<char>, Seq<char>)> {
    extra.map_values(|p: (&str, &str)| (p.0@, p.1@))
}

/// The authenticated REST URL of `endpoint` on an upstream server.
pub open spec fn upstream_url_model(
    base_url: Seq<char>,
    username: Seq<char>,
    password: Seq<char>,
    endpoint: Seq<char>,
    salt: Seq<char>,
    extra: Seq<(Seq<char>, Seq<char>)>,
) -> Seq<char> {
    trim_trailing_slashes(base_url) + "/rest/"@ + endpoint + "?u="@ + urlencoded_model(username)
        + "&t="@ + urlencoded_model(token_model(password, salt)) + "&s="@ + urlencoded_model(salt)
        + "&v=1.16.1&c=subsonic-nexus&f=json"@ + extra_query_model(extra)
}

fn trim_end_slashes(s: &str) -> (r: String)
    ensures
        r@ == trim_trailing_slashes(s@),
{
    let v = chars_of(s);
    let mut n = v.len();
    assert(v@.take(n as int) =~= v@);
    while n > 0 && v[n - 1] == '/'
        invariant
            n <= v@.len(),
            trim_trailing_slashes(v@) == trim_trailing_slashes(v@.take(n as int)),
        decreases n,
    {
        assert(v@.take(n as int).drop_last() =~= v@.take(n - 1));
        n = n - 1;
    }
    let w = subvec(&v, 0, n);
    proof {
        let t = v@.take(n as int);
        assert(w@ =~= t);
    }
    string_of(&w)
}

/// Trimming drops only trailing slashes, and all of them: the result ends in
/// no `/`, and the text is the result followed by nothing but slashes.
pub proof fn law_trim_trailing_slashes(t: Seq<char>)
    ensures
        ({
            let r = trim_trailing_slashes(t);
            &&& r.len() <= t.len()
            &&& t.take(r.len() as int) == r
            &&& forall|i: int| r.len() <= i < t.len() ==> #[trigger] t[i] == '/'
            &&& r.len() > 0 ==> r.last() != '/'
        }),
    decreases t.len(),
{
    if t.len() > 0 && t.last() == '/' {
        law_trim_trailing_slashes(t.drop_last());
        let r = trim_trailing_slashes(t);
        assert(t.take(r.len() as int) =~= t.drop_last().take(r.len() as int));
        assert forall|i: int| r.len() <= i < t.len() implies #[trigger] t[i] == '/' by {
            if i < t.len() - 1 {
                assert(t[i] == t.drop_last()[i]);
            }
        }
    } else {
        assert(t.take(t.len() as int) =~= t);
    }
}

/// An upstream URL is the server's URL without trailing slashes, `/rest/`,
/// the endpoint, then the query: the user name, the token of the password
/// and the salt, and the salt, each percent-encoded, then API version
/// 1.16.1, client `subsonic-nexus` and JSON format, then the extra
/// parameters in order.
pub proof fn law_upstream_url_parts(
    base_url: Seq<char>,
    username: Seq<char>,
    password: Seq<char>,
    endpoint: Seq<char>,
    salt: Seq<char>,
    extra: Seq<(Seq<char>, Seq<char>)>,
)
    ensures
        upstream_url_model(base_url, username, password, endpoint, salt, extra)
            == trim_trailing_slashes(base_url) + "/rest/"@ + endpoint + "?"@ + "u="@
            + urlencoded_model(username) + "&"@ + "t="@ + urlencoded_model(
            token_model(password, salt),
        ) + "&"@ + "s="@ + urlencoded_model(salt) + "&"@ + "v=1.16.1"@ + "&"@
            + "c=subsonic-nexus"@ + "&"@ + "f=json"@ + extra_query_model(extra),
{
    reveal_strlit("?u=");
    reveal_strlit("?");
    reveal_strlit("u=");
    reveal_strlit("&t=");
    reveal_strlit("&");
    reveal_strlit("t=");
    reveal_strlit("&s=");
    reveal_strlit("s=");
    reveal_strlit("&v=1.16.1&c=subsonic-nexus&f=json");
    reveal_strlit("v=1.16.1");
    reveal_strlit("c=subsonic-nexus");
    reveal_strlit("f=json");
    let lhs = upstream_url_model(base_url, username, password, endpoint, salt, extra);
    let rhs = trim_trailing_slashes(base_url) + "/rest/"@ + endpoint + "?"@ + "u="@
        + urlencoded_model(username) + "&"@ + "t="@ + urlencoded_model(token_model(password, salt))
        + "&"@ + "s="@ + urlencoded_model(salt) + "&"@ + "v=1.16.1"@ + "&"@ + "c=subsonic-nexus"@
        + "&"@ + "f=json"@ + extra_query_model(extra);
    assert("?"@ + "u="@ =~= "?u="@);
    assert("&"@ + "t="@ =~= "&t="@);
    assert("&"@ + "s="@ =~= "&s="@);
    assert("&"@ + "v=1.16.1"@ + "&"@ + "c=subsonic-nexus"@ + "&"@ + "f=json"@
        =~= "&v=1.16.1&c=subsonic-nexus&f=json"@);
    assert(lhs =~= rhs);
}

/// Build an authenticated upstream REST URL with token+salt auth:
/// `t = md5(password + salt)`, `s = salt`.
pub fn build_upstream_url(
    cfg: &ServerConfig,
    endpoint: &str,
    extra_params: &[(&str, &str)],
    salt: &str,
) -> (r: String)
    ensures
        r@ == upstream_url_model(
            cfg.url@,
            cfg.username@,
            cfg.password@,
            endpoint@,
            salt@,
            pairs_view(extra_params@),
        ),
{
    let token = subsonic_token(cfg.password.as_str(), salt);
    let mut url = trim_end_slashes(cfg.url.as_str());
    url.append("/rest/");
    url.append(endpoint);
    url.append("?u=");
    let u = urlencoded(cfg.username.as_str());
    url.append(u.as_str());
    url.append("&t=");
    let t = urlencoded(token.as_str());
    url.append(t.as_str());
    url.append("&s=");
    let sl = urlencoded(salt);
    url.append(sl.as_str());
    url.append("&v=1.16.1&c=subsonic-nexus&f=json");
    let ghost head = url@;
    let mut i: usize = 0;
    while i < extra_params.len()
        invariant
            i <= extra_params@.len(),
            url@ == head + extra_query_model(pairs_view(extra_params@.take(i as int))),
        decreases extra_params.len() - i,
    {
        let (k, v) = extra_params[i];
        let ghost before = url@;
        push_char(&mut url, '&');
        url.append(k);
        push_char(&mut url, '=');
        let ev = urlencoded(v);
        url.append(ev.as_str());
        i = i + 1;
        proof {
            let pv = pairs_view(extra_params@.take(i as int));
            assert(pv.drop_last() =~= pairs_view(extra_params@.take(i - 1)));
            assert(pv.last() == (k@, v@));
            assert(url@ =~= before + seq!['&'] + k@ + seq!['='] + urlencoded_model(v@));
            assert(extra_query_model(pv) == extra_query_model(pv.drop_last()) + seq!['&'] + k@
                + seq!['='] + urlencoded_model(v@));
        }
    }
    assert(extra_params@.take(extra_params@.len() as int) =~= extra_params@);
    url
}


// ── Canonical rows and response IDs ───────────────────────────────────────────

/// A canonical (deduplicated) artist row, joined with its server name.
#[derive(Debug, Clone)]
pub struct CanonicalArtist {
    pub db_id: i32,
    pub server_id: i32,
    pub server_name: String,
    pub upstream_id: String,
    pub aggregation_key: String,
    pub name: String,
    pub metadata_json: String,
}

/// A canonical (deduplicated) album row, joined with its server name.
#[derive(Debug, Clone)]
pub struct CanonicalAlbum {
    pub db_id: i32,
    pub server_id: i32,
    pub server_name: String,
    pub upstream_id: String,
    pub aggregation_key: String,
    pub name: String,
    pub artist_upstream_id_opt: Option<i32>,
    pub metadata_json: String,
}

/// A song row (songs are not deduplicated), joined with its server name.
#[derive(Debug, Clone)]
pub struct SongRow {
    pub db_id: i32,
    pub server_id: i32,
    pub server_name: String,
    pub upstream_id: String,
    pub title: String,
    pub metadata_json: String,
}

/// The identifiers of an artist as clients see them.
pub struct ArtistIds {
    pub id: String,
    pub cover_art: Option<String>,
}

/// The identifiers of an album as clients see them.
pub struct AlbumIds {
    pub id: String,
    pub cover_art: Option<String>,
    pub artist_id: Option<String>,
}

/// The identifiers of a song as clients see them.
pub struct SongIds {
    pub id: String,
    pub cover_art: Option<String>,
    pub artist_id: Option<String>,
    pub album_id: Option<String>,
}

pub open spec fn opt_str(o: Option<&str>) -> Option<Seq<char>> {
    match o {
        Some(s) => Some(s@),
        None => None,
    }
}

pub open spec fn opt_string(o: Option<String>) -> Option<Seq<char>> {
    match o {
        Some(s) => Some(s@),
        None => None,
    }
}

/// An upstream cover-art id rewritten to a nexus cover-art id.
pub open spec fn cover_art_model(server_id: i32, upstream: Option<Seq<char>>) -> Option<Seq<char>> {
    match upstream {
        Some(c) => Some(cover_art_id_model(server_id, c)),
        None => None,
    }
}

/// A reference to another entity on the same server, rewritten to a nexus ID;
/// with the upstream-only template it is already one.
pub open spec fn ref_model(
    template: IdTemplate,
    server_name: Seq<char>,
    server_id: i32,
    upstream: Option<Seq<char>>,
) -> Option<Seq<char>> {
    match upstream {
        Some(u) => if template == IdTemplate::UpstreamOnly {
            Some(u)
        } else {
            Some(entity_id_model(template, server_name, server_id, u))
        },
        None => None,
    }
}

fn cover_art_opt(server_id: i32, upstream: Option<&str>) -> (r: Option<String>)
    ensures
        opt_string(r) == cover_art_model(server_id, opt_str(upstream)),
{
    match upstream {
        Some(c) => Some(build_cover_art_id(server_id, c)),
        None => None,
    }
}

fn ref_opt(template: IdTemplate, server_name: &str, server_id: i32, upstream: Option<&str>) -> (r:
    Option<String>)
    ensures
        opt_string(r) == ref_model(template, server_name@, server_id, opt_str(upstream)),
{
    match upstream {
        Some(u) => if template == IdTemplate::UpstreamOnly {
            Some(String::from_str(u))
        } else {
            Some(build_entity_id(template, server_name, server_id, u))
        },
        None => None,
    }
}

/// The identifiers of a canonical artist row: its nexus ID and its cover art
/// (as stored in the row's metadata) rewritten to a nexus cover-art ID.
pub fn artist_ids_from_canonical(
    row: &CanonicalArtist,
    cfg: &NexusConfig,
    cover_art: Option<&str>,
) -> (r: ArtistIds)
    ensures
        r.id@ == entity_id_model(
            id_template_of(cfg.entity_id_template@),
            row.server_name@,
            row.server_id,
            row.upstream_id@,
        ),
        opt_string(r.cover_art) == cover_art_model(row.server_id, opt_str(cover_art)),
{
    let template = IdTemplate::from_config(cfg.entity_id_template.as_str());
    ArtistIds {
        id: build_entity_id(
            template,
            row.server_name.as_str(),
            row.server_id,
            row.upstream_id.as_str(),
        ),
        cover_art: cover_art_opt(row.server_id, cover_art),
    }
}

/// The identifiers of a canonical album row: its nexus ID, its cover art as a
/// nexus cover-art ID, and its artist reference as a nexus ID.
pub fn album_ids_from_canonical(
    row: &CanonicalAlbum,
    cfg: &NexusConfig,
    cover_art: Option<&str>,
    artist_id: Option<&str>,
) -> (r: AlbumIds)
    ensures
        r.id@ == entity_id_model(
            id_template_of(cfg.entity_id_template@),
            row.server_name@,
            row.server_id,
            row.upstream_id@,
        ),
        opt_string(r.cover_art) == cover_art_model(row.server_id, opt_str(cover_art)),
        opt_string(r.artist_id) == ref_model(
            id_template_of(cfg.entity_id_template@),
            row.server_name@,
            row.server_id,
            opt_str(artist_id),
        ),
{
    let template = IdTemplate::from_config(cfg.entity_id_template.as_str());
    AlbumIds {
        id: build_entity_id(
            template,
            row.server_name.as_str(),
            row.server_id,
            row.upstream_id.as_str(),
        ),
        cover_art: cover_art_opt(row.server_id, cover_art),
        artist_id: ref_opt(template, row.server_name.as_str(), row.server_id, artist_id),
    }
}

/// The identifiers of a song row: its nexus ID, its cover art as a nexus
/// cover-art ID, and its artist and album references as nexus IDs.
pub fn song_ids_from_row(
    row: &SongRow,
    cfg: &NexusConfig,
    cover_art: Option<&str>,
    artist_id: Option<&str>,
    album_id: Option<&str>,
) -> (r: SongIds)
    ensures
        r.id@ == entity_id_model(
            id_template_of(cfg.entity_id_template@),
            row.server_name@,
            row.server_id,
            row.upstream_id@,
        ),
        opt_string(r.cover_art) == cover_art_model(row.server_id, opt_str(cover_art)),
        opt_string(r.artist_id) == ref_model(
            id_template_of(cfg.entity_id_template@),
            row.server_name@,
            row.server_id,
            opt_str(artist_id),
        ),
        opt_string(r.album_id) == ref_model(
            id_template_of(cfg.entity_id_template@),
            row.server_name@,
            row.server_id,
            opt_str(album_id),
        ),
{
    let template = IdTemplate::from_config(cfg.entity_id_template.as_str());
    SongIds {
        id: build_entity_id(
            template,
            row.server_name.as_str(),
            row.server_id,
            row.upstream_id.as_str(),
        ),
        cover_art: cover_art_opt(row.server_id, cover_art),
        artist_id: ref_opt(template, row.server_name.as_str(), row.server_id, artist_id),
        album_id: ref_opt(template, row.server_name.as_str(), row.server_id, album_id),
    }
}

// ── Index letters and grouping ────────────────────────────────────────────────

pub open spec fn is_ascii_alpha(c: char) -> bool {
    (65 <= code(c) <= 90) || (97 <= code(c) <= 122)
}

/// The index an artist name is filed under: the upper-cased first letter of
/// the name without its leading article, or `#` when that is not an ASCII letter.
pub open spec fn index_letter_model(name: Seq<char>) -> Seq<char> {
    let stripped = strip_articles_model(name);
    let first = if stripped.len() > 0 {
        stripped[0]
    } else if name.len() > 0 {
        name[0]
    } else {
        '#'
    };
    if is_ascii_alpha(first) {
        seq![ascii_upper(first)]
    } else {
        seq!['#']
    }
}

/// Derive the index letter (A–Z or "#") for an artist name.
pub fn index_letter(name: &str) -> (r: String)
    ensures
        r@ == index_letter_model(name@),
{
    let v = chars_of(name);
    let stripped = strip_leading_articles(&v);
    let first = if stripped.len() > 0 {
        stripped[0]
    } else if v.len() > 0 {
        v[0]
    } else {
        '#'
    };
    let n = first as u32;
    let mut r = String::new();
    if (65 <= n && n <= 90) || (97 <= n && n <= 122) {
        push_char(&mut r, to_ascii_upper(first));
    } else {
        push_char(&mut r, '#');
    }
    assert(r@ =~= index_letter_model(name@));
    r
}

/// Index letters are `#` or a single upper-case ASCII letter.
pub proof fn law_index_letter_shape(name: Seq<char>)
    ensures
        index_letter_model(name).len() == 1,
        index_letter_model(name) == seq!['#'] || (65 <= code(index_letter_model(name)[0]) <= 90),
{
}

/// One index group: a letter and the positions of the artists filed under it.
pub struct IndexGroup {
    pub name: String,
    pub members: Vec<usize>,
}

/// Position of the first group keyed `k` at or after `j`, or `g.len()`.
pub open spec fn find_group(g: Seq<(Seq<char>, Seq<usize>)>, k: Seq<char>, j: int) -> int
    decreases g.len() - j,
{
    if 0 <= j < g.len() {
        if g[j].0 == k {
            j
        } else {
            find_group(g, k, j + 1)
        }
    } else {
        g.len() as int
    }
}

/// Groups of item positions by key, in order of each key's first appearance;
/// within a group positions keep their order.
pub open spec fn group_model(keys: Seq<Seq<char>>) -> Seq<(Seq<char>, Seq<usize>)>
    decreases keys.len(),
{
    if keys.len() == 0 {
        Seq::empty()
    } else {
        let g = group_model(keys.drop_last());
        let k = keys.last();
        let i = (keys.len() - 1) as usize;
        let j = find_group(g, k, 0);
        if j < g.len() {
            g.update(j, (g[j].0, g[j].1.push(i)))
        } else {
            g.push((k, seq![i]))
        }
    }
}

pub open spec fn groups_view(v: Seq<IndexGroup>) -> Seq<(Seq<char>, Seq<usize>)> {
    v.map_values(|g: IndexGroup| (g.name@, g.members@))
}

pub open spec fn index_keys(names: Seq<String>) -> Seq<Seq<char>> {
    names.map_values(|n: String| index_letter_model(n@))
}

proof fn lemma_find_group_range(g: Seq<(Seq<char>, Seq<usize>)>, k: Seq<char>, j: int)
    requires
        0 <= j <= g.len(),
    ensures
        j <= find_group(g, k, j) <= g.len(),
        find_group(g, k, j) < g.len() ==> g[find_group(g, k, j)].0 == k,
        forall|t: int| j <= t < find_group(g, k, j) ==> g[t].0 != k,
    decreases g.len() - j,
{
    if j < g.len() && g[j].0 != k {
        lemma_find_group_range(g, k, j + 1);
    }
}

/// Group artists by index letter: positions in `names`, one group per letter
/// in order of first appearance.
pub fn group_by_index_letter(names: &Vec<String>) -> (r: Vec<IndexGroup>)
    ensures
        groups_view(r@) == group_model(index_keys(names@)),
{
    let mut groups: Vec<IndexGroup> = Vec::new();
    let mut i: usize = 0;
    while i < names.len()
        invariant
            i <= names@.len(),
            groups_view(groups@) == group_model(index_keys(names@.take(i as int))),
        decreases names.len() - i,
    {
        let key = index_letter(names[i].as_str());
        let ghost g = groups_view(groups@);
        let ghost keys = index_keys(names@.take(i + 1));
        proof {
            assert(keys.drop_last() =~= index_keys(names@.take(i as int)));
            assert(keys.last() == key@);
            lemma_find_group_range(g, key@, 0);
        }
        let kv = chars_of(key.as_str());
        let mut j: usize = 0;
        let mut found = false;
        while j < groups.len() && !found
            invariant
                j <= groups@.len(),
                g == groups_view(groups@),
                kv@ == key@,
                found ==> j < groups@.len() && find_group(g, key@, 0) == j,
                !found ==> find_group(g, key@, 0) == find_group(g, key@, j as int),
            decreases groups.len() - j, if found { 0int } else { 1int },
        {
            let gk = chars_of(groups[j].name.as_str());
            if crate::text::chars_eq(&gk, &kv) {
                found = true;
            } else {
                j = j + 1;
            }
        }
        if found && j < groups.len() {
            let mut grp = groups.remove(j);
            grp.members.push(i);
            groups.insert(j, grp);
            assert(groups_view(groups@) =~= g.update(j as int, (g[j as int].0, g[j as int].1.push(i))));
        } else {
            let mut m: Vec<usize> = Vec::new();
            m.push(i);
            groups.push(IndexGroup { name: key, members: m });
            assert(groups_view(groups@) =~= g.push((key@, seq![i])));
        }
        i = i + 1;
    }
    assert(names@.take(names@.len() as int) =~= names@);
    groups
}


/// `g` partitions the positions of `keys` by key: keys are distinct, every
/// position lies in a group, each member's key is its group's key, and
/// members keep their order.
pub open spec fn groups_partition(keys: Seq<Seq<char>>, g: Seq<(Seq<char>, Seq<usize>)>) -> bool {
    &&& forall|a: int, b: int| 0 <= a < b < g.len() ==> (#[trigger] g[a]).0 != (#[trigger] g[b]).0
    &&& forall|a: int, t: int|
        0 <= a < g.len() && 0 <= t < g[a].1.len() ==> (#[trigger] g[a].1[t]) < keys.len()
            && keys[g[a].1[t] as int] == g[a].0
    &&& forall|a: int, t1: int, t2: int|
        0 <= a < g.len() && 0 <= t1 < t2 < g[a].1.len() ==> (#[trigger] g[a].1[t1]) < (
        #[trigger] g[a].1[t2])
    &&& forall|i: int| 0 <= i < keys.len() ==> #[trigger] in_some_group(g, i)
}

/// Position `i` is a member of some group of `g`.
pub open spec fn in_some_group(g: Seq<(Seq<char>, Seq<usize>)>, i: int) -> bool {
    exists|a: int, t: int| 0 <= a < g.len() && 0 <= t < g[a].1.len() && #[trigger] g[a].1[t] == i
}

/// Grouping by index letter partitions the artists: one group per distinct
/// letter, every artist in exactly the group of its own letter, in order.
pub proof fn law_grouping_partitions(keys: Seq<Seq<char>>)
    requires
        keys.len() <= usize::MAX,
    ensures
        groups_partition(keys, group_model(keys)),
    decreases keys.len(),
{
    if keys.len() > 0 {
        let pk = keys.drop_last();
        law_grouping_partitions(pk);
        let g = group_model(pk);
        let k = keys.last();
        let n = keys.len() - 1;
        let i = n as usize;
        let j = find_group(g, k, 0);
        lemma_find_group_range(g, k, 0);
        let h = group_model(keys);
        if j < g.len() {
            assert(h == g.update(j, (g[j].0, g[j].1.push(i))));
            assert forall|a: int, t: int| 0 <= a < h.len() && 0 <= t < h[a].1.len() implies (
            #[trigger] h[a].1[t]) < keys.len() && keys[h[a].1[t] as int] == h[a].0 by {
                if a == j && t == g[j].1.len() {
                } else {
                    assert(h[a].1[t] == g[a].1[t]);
                    assert(keys[g[a].1[t] as int] == pk[g[a].1[t] as int]);
                }
            }
            assert forall|a: int, t1: int, t2: int|
                0 <= a < h.len() && 0 <= t1 < t2 < h[a].1.len() implies (#[trigger] h[a].1[t1]) < (
            #[trigger] h[a].1[t2]) by {
                assert(h[a].1[t1] == g[a].1[t1]);
                if a == j && t2 == g[j].1.len() {
                    assert(g[a].1[t1] < pk.len());
                } else {
                    assert(h[a].1[t2] == g[a].1[t2]);
                }
            }
            assert forall|x: int| 0 <= x < keys.len() implies #[trigger] in_some_group(h, x) by {
                if x == n {
                    assert(h[j].1[g[j].1.len() as int] == x);
                } else {
                    assert(in_some_group(g, x));
                    let (a, t) = choose|a: int, t: int|
                        0 <= a < g.len() && 0 <= t < g[a].1.len() && #[trigger] g[a].1[t] == x;
                    assert(h[a].1[t] == g[a].1[t]);
                }
            }
            assert forall|a: int, b: int| 0 <= a < b < h.len() implies (#[trigger] h[a]).0 != (
            #[trigger] h[b]).0 by {
                assert(h[a].0 == g[a].0);
                assert(h[b].0 == g[b].0);
            }
            assert(groups_partition(keys, h));
        } else {
            assert(h == g.push((k, seq![i])));
            assert forall|a: int, t: int| 0 <= a < h.len() && 0 <= t < h[a].1.len() implies (
            #[trigger] h[a].1[t]) < keys.len() && keys[h[a].1[t] as int] == h[a].0 by {
                if a < g.len() {
                    assert(h[a] == g[a]);
                    assert(keys[g[a].1[t] as int] == pk[g[a].1[t] as int]);
                }
            }
            assert forall|a: int, t1: int, t2: int|
                0 <= a < h.len() && 0 <= t1 < t2 < h[a].1.len() implies (#[trigger] h[a].1[t1]) < (
            #[trigger] h[a].1[t2]) by {
                if a < g.len() {
                    assert(h[a] == g[a]);
                }
            }
            assert forall|x: int| 0 <= x < keys.len() implies #[trigger] in_some_group(h, x) by {
                if x == n {
                    assert(h[g.len() as int].1[0] == x);
                } else {
                    assert(in_some_group(g, x));
                    let (a, t) = choose|a: int, t: int|
                        0 <= a < g.len() && 0 <= t < g[a].1.len() && #[trigger] g[a].1[t] == x;
                    assert(h[a] == g[a]);
                    assert(h[a].1[t] == x);
                }
            }
            assert forall|a: int, b: int| 0 <= a < b < h.len() implies (#[trigger] h[a]).0 != (
            #[trigger] h[b]).0 by {
                if b == g.len() {
                    assert(h[a] == g[a]);
                } else {
                    assert(h[a] == g[a]);
                    assert(h[b] == g[b]);
                }
            }
            assert(groups_partition(keys, h));
        }
    }
}

} // verus!
