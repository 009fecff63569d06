//! Subsonic token authentication: `t = md5(password + salt)` in lower-case hex.

use vstd::prelude::*;
use vstd::utf8::encode_utf8;
use crate::text::push_char;

verus! {

/// The MD5 digest of `data`, as the `md5` crate computes it.
pub uninterp spec fn md5_digest(data: Seq<u8>) -> Seq<u8>;

/// `md5::compute`: the 16-byte MD5 digest of `data`.
#[verifier::external_body]
fn md5_compute(data: &[u8]) -> (d: [u8; 16])
    ensures
        d@ == md5_digest(data@),
{
    md5::compute(data).0
}

/// The lower-case hexadecimal digit for `d` in `0..16`.
pub open spec fn hex_lower_digit(d: int) -> char {
    if d < 10 {
        (48 + d) as char
    } else {
        (87 + d) as char
    }
}

/// The upper-case hexadecimal digit for `d` in `0..16`.
pub open spec fn hex_upper_digit(d: int) -> char {
    if d < 10 {
        (48 + d) as char
    } else {
        (55 + d) as char
    }
}

/// Each byte as two lower-case hexadecimal digits (what `{:x}` writes for an
/// MD5 digest).
pub open spec fn hex_lower(bytes: Seq<u8>) -> Seq<char>
    decreases bytes.len(),
{
    if bytes.len() == 0 {
        Seq::empty()
    } else {
        hex_lower(bytes.drop_last()).push(hex_lower_digit((bytes.last() / 16) as int)).push(
            hex_lower_digit((bytes.last() % 16) as int),
        )
    }
}

pub fn hex_digit_lower(d: u8) -> (c: char)
    requires
        d < 16,
    ensures
        c == hex_lower_digit(d as int),
{
    if d < 10 {
        (48 + d) as char
    } else {
        (87 + d) as char
    }
}

pub fn hex_digit_upper(d: u8) -> (c: char)
    requires
        d < 16,
    ensures
        c == hex_upper_digit(d as int),
{
    if d < 10 {
        (48 + d) as char
    } else {
        (55 + d) as char
    }
}

/// Lower-case hexadecimal of `bytes`.
pub fn to_hex_lower(bytes: &[u8]) -> (r: String)
    ensures
        r@ == hex_lower(bytes@),
{
    let mut r = String::new();
    let mut i: usize = 0;
    while i < bytes.len()
        invariant
            i <= bytes@.len(),
            r@ == hex_lower(bytes@.take(i as int)),
        decreases bytes.len() - i,
    {
        let b = bytes[i];
        assert(bytes@.take(i + 1).drop_last() =~= bytes@.take(i as int));
        push_char(&mut r, hex_digit_lower(b / 16));
        push_char(&mut r, hex_digit_lower(b % 16));
        i = i + 1;
    }
    assert(bytes@.take(bytes@.len() as int) =~= bytes@);
    r
}

/// The token for `password` and `salt`: the lower-case hex MD5 digest of the
/// UTF-8 bytes of `password` followed by `salt`.
pub open spec fn token_model(password: Seq<char>, salt: Seq<char>) -> Seq<char> {
    hex_lower(md5_digest(encode_utf8(password + salt)))
}

/// Computes the Subsonic authentication token `md5(password + salt)`.
pub fn subsonic_token(password: &str, salt: &str) -> (r: String)
    ensures
        r@ == token_model(password@, salt@),
{
    let mut joined = String::from_str(password);
    joined.append(salt);
    let bytes = joined.as_str().as_bytes();
    let digest = md5_compute(bytes);
    to_hex_lower(digest.as_slice())
}

/// `x` as exactly `n` lower-case hexadecimal digits (the low `n` digits,
/// zero-padded), as `{:0n$x}` writes a value below `16^n`.
pub open spec fn hex_fixed(x: nat, n: nat) -> Seq<char>
    decreases n,
{
    if n == 0 {
        Seq::empty()
    } else {
        hex_fixed(x / 16, (n - 1) as nat).push(hex_lower_digit((x % 16) as int))
    }
}

fn hex_fixed_digits(x: u32, n: u32) -> (r: Vec<char>)
    requires
        n <= 8,
    ensures
        r@ == hex_fixed(x as nat, n as nat),
    decreases n,
{
    if n == 0 {
        Vec::new()
    } else {
        let mut v = hex_fixed_digits(x / 16, n - 1);
        v.push(hex_digit_lower((x % 16) as u8));
        v
    }
}

/// The request salt made of two 32-bit values, each as eight lower-case hex
/// digits (`format!("{:08x}{:08x}", a, b)`).
pub fn format_salt(a: u32, b: u32) -> (r: String)
    ensures
        r@ == hex_fixed(a as nat, 8) + hex_fixed(b as nat, 8),
{
    let mut v = hex_fixed_digits(a, 8);
    let w = hex_fixed_digits(b, 8);
    let ghost v0 = v@;
    let mut i: usize = 0;
    while i < w.len()
        invariant
            i <= w@.len(),
            v@ == v0 + w@.take(i as int),
        decreases w.len() - i,
    {
        v.push(w[i]);
        i = i + 1;
        assert(v@ =~= v0 + w@.take(i as int));
    }
    assert(w@.take(w@.len() as int) =~= w@);
    let mut r = String::new();
    let mut k: usize = 0;
    while k < v.len()
        invariant
            k <= v@.len(),
            r@ == v@.take(k as int),
        decreases v.len() - k,
    {
        push_char(&mut r, v[k]);
        k = k + 1;
        assert(r@ =~= v@.take(k as int));
    }
    assert(v@.take(v@.len() as int) =~= v@);
    r
}

} // verus!
