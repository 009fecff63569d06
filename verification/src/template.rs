//! Aggregation-key template parser and evaluator.
//!
//! Templates are small expressions that extract a stable string key from an
//! artist or album, used to identify the same entity across multiple upstream
//! servers.
//!
//! | Pattern                  | Meaning                                                  |
//! |--------------------------|----------------------------------------------------------|
//! | `{field}`                | Value of `field`; empty string if null/absent            |
//! | `{field|t1|t2}`          | Value of `field` with transforms `t1`, `t2` applied      |
//! | `{field:-fallback_expr}` | Value of `field` if non-empty, otherwise `fallback_expr` |
//! | any other text           | Literal characters                                       |
//!
//! Transforms: `lowercase` (ASCII lower case), `trim` (strip leading and
//! trailing whitespace), `ascii_normalize` (decompose Unicode characters,
//! drop combining marks, keep only printable ASCII) and `strip_articles`
//! (remove a leading "The ", "A " or "An ", case-insensitively).

use vstd::prelude::*;
use crate::decompose::{decomposition_base, decomposition_base_exec};
use crate::text::{
    ascii_lower, ascii_lower_seq, chars_eq_str, chars_of, code, extend_chars, string_of, subvec,
    to_ascii_lower, trim_chars, trim_seq, is_ws, lead_end, trail_start,
};

verus! {

// ── Model ─────────────────────────────────────────────────────────────────────

/// A transform applied to a field value.
#[derive(Clone, Copy, PartialEq, Eq, Debug, Structural)]
pub enum Transform {
    Lowercase,
    Trim,
    AsciiNormalize,
    StripArticles,
}

/// One piece of a compiled template.
#[derive(Debug)]
pub enum Segment {
    Literal(Vec<char>),
    Field { name: Vec<char>, transforms: Vec<Transform>, fallback: Vec<Segment> },
}

/// The mathematical content of a [`Segment`].
pub enum SegmentModel {
    Literal(Seq<char>),
    Field { name: Seq<char>, transforms: Seq<Transform>, fallback: Seq<SegmentModel> },
}

pub open spec fn seg_model(s: Segment) -> SegmentModel
    decreases s,
{
    match s {
        Segment::Literal(t) => SegmentModel::Literal(t@),
        Segment::Field { name, transforms, fallback } => SegmentModel::Field {
            name: name@,
            transforms: transforms@,
            fallback: segs_model(fallback@),
        },
    }
}

pub open spec fn segs_model(v: Seq<Segment>) -> Seq<SegmentModel>
    decreases v,
{
    if v.len() == 0 {
        Seq::empty()
    } else {
        segs_model(v.drop_last()).push(seg_model(v.last()))
    }
}

proof fn lemma_segs_model_push(v: Seq<Segment>, x: Segment)
    ensures
        segs_model(v.push(x)) == segs_model(v).push(seg_model(x)),
{
    assert(v.push(x).drop_last() =~= v);
}

proof fn lemma_segs_model_concat(a: Seq<Segment>, b: Seq<Segment>)
    ensures
        segs_model(a + b) == segs_model(a) + segs_model(b),
    decreases b.len(),
{
    if b.len() == 0 {
        assert(a + b =~= a);
        assert(segs_model(a) + segs_model(b) =~= segs_model(a));
    } else {
        lemma_segs_model_concat(a, b.drop_last());
        assert((a + b).drop_last() =~= a + b.drop_last());
        assert((a + b).last() == b.last());
        assert(segs_model(a) + segs_model(b) =~= (segs_model(a) + segs_model(b.drop_last())).push(
            seg_model(b.last()),
        ));
    }
}

// ── Transforms ────────────────────────────────────────────────────────────────

/// Number of bytes in the UTF-8 encoding of `c`.
pub open spec fn utf8_len(c: char) -> int {
    if code(c) < 0x80 {
        1
    } else if code(c) < 0x800 {
        2
    } else if code(c) < 0x10000 {
        3
    } else {
        4
    }
}

/// Number of bytes in the UTF-8 encoding of `s`.
pub open spec fn byte_len(s: Seq<char>) -> int
    decreases s.len(),
{
    if s.len() == 0 {
        0
    } else {
        utf8_len(s[0]) + byte_len(s.drop_first())
    }
}

/// Whether `s` begins with `art`, ASCII letters compared without regard to case.
pub open spec fn starts_ci(s: Seq<char>, art: Seq<char>) -> bool {
    s.len() >= art.len() && forall|i: int| 0 <= i < art.len() ==> ascii_lower(#[trigger] s[i]) == art[i]
}

pub open spec fn the_article() -> Seq<char> {
    seq!['t', 'h', 'e', ' ']
}

pub open spec fn a_article() -> Seq<char> {
    seq!['a', ' ']
}

pub open spec fn an_article() -> Seq<char> {
    seq!['a', 'n', ' ']
}

/// `strip_articles`: drop a leading "the ", "a " or "an " (checked in that
/// order, ignoring ASCII case) when the value is longer (in bytes) than it.
pub open spec fn strip_articles_model(s: Seq<char>) -> Seq<char> {
    let b = byte_len(s);
    if b > 4 && starts_ci(s, the_article()) {
        s.skip(4)
    } else if b > 2 && starts_ci(s, a_article()) {
        s.skip(2)
    } else if b > 3 && starts_ci(s, an_article()) {
        s.skip(3)
    } else {
        s
    }
}

/// What `ascii_normalize` keeps of a character: printable ASCII
/// (U+0020..U+007E) stays as it is; any other character is decomposed
/// canonically (NFD) and only the ASCII character that begins its
/// decomposition is kept, so that combining marks, control characters and
/// characters without such a decomposition are dropped.
pub open spec fn normalize_char(c: char) -> Option<char> {
    let n = code(c);
    if 0x20 <= n <= 0x7E {
        Some(c)
    } else if n < 0x80 {
        None
    } else {
        decomposition_base(n)
    }
}

/// `ascii_normalize`: each character replaced by its ASCII form, or dropped.
pub open spec fn ascii_normalize_model(s: Seq<char>) -> Seq<char>
    decreases s.len(),
{
    if s.len() == 0 {
        Seq::empty()
    } else {
        let rest = ascii_normalize_model(s.drop_last());
        match normalize_char(s.last()) {
            Some(c) => rest.push(c),
            None => rest,
        }
    }
}

/// The result of one transform.
pub open spec fn transform_model(s: Seq<char>, t: Transform) -> Seq<char> {
    match t {
        Transform::Lowercase => ascii_lower_seq(s),
        Transform::Trim => trim_seq(s),
        Transform::AsciiNormalize => ascii_normalize_model(s),
        Transform::StripArticles => strip_articles_model(s),
    }
}

/// The transforms applied in order, first to last.
pub open spec fn apply_model(s: Seq<char>, ts: Seq<Transform>) -> Seq<char>
    decreases ts.len(),
{
    if ts.len() == 0 {
        s
    } else {
        transform_model(apply_model(s, ts.drop_last()), ts.last())
    }
}

fn ascii_normalize_char(c: char) -> (r: Option<char>)
    ensures
        r == normalize_char(c),
{
    let n = c as u32;
    if 0x20 <= n && n <= 0x7E {
        Some(c)
    } else if n < 0x80 {
        None
    } else {
        decomposition_base_exec(n)
    }
}

/// Decompose each character, drop combining marks and keep only printable
/// ASCII characters.
fn ascii_normalize(s: &Vec<char>) -> (r: Vec<char>)
    ensures
        r@ == ascii_normalize_model(s@),
{
    let mut r: Vec<char> = Vec::new();
    let mut i: usize = 0;
    while i < s.len()
        invariant
            i <= s@.len(),
            r@ == ascii_normalize_model(s@.take(i as int)),
        decreases s.len() - i,
    {
        let ghost pre = s@.take(i as int);
        assert(s@.take(i + 1).drop_last() =~= pre);
        match ascii_normalize_char(s[i]) {
            Some(c) => r.push(c),
            None => {},
        }
        i = i + 1;
    }
    assert(s@.take(s@.len() as int) =~= s@);
    r
}

fn ascii_lowercase(s: &Vec<char>) -> (r: Vec<char>)
    ensures
        r@ == ascii_lower_seq(s@),
{
    let mut r: Vec<char> = Vec::new();
    let mut i: usize = 0;
    while i < s.len()
        invariant
            i <= s@.len(),
            r@ == ascii_lower_seq(s@.take(i as int)),
        decreases s.len() - i,
    {
        r.push(to_ascii_lower(s[i]));
        i = i + 1;
        assert(r@ =~= ascii_lower_seq(s@.take(i as int)));
    }
    assert(s@.take(s@.len() as int) =~= s@);
    r
}

pub(crate) fn utf8_width(c: char) -> (r: usize)
    ensures
        r == utf8_len(c),
{
    let n = c as u32;
    if n < 0x80 {
        1
    } else if n < 0x800 {
        2
    } else if n < 0x10000 {
        3
    } else {
        4
    }
}

/// Whether the UTF-8 encoding of `s` is longer than `k` bytes.
fn byte_len_exceeds(s: &Vec<char>, k: usize) -> (r: bool)
    requires
        k <= 4,
    ensures
        r == (byte_len(s@) > k),
{
    let mut total: usize = 0;
    let mut i: usize = 0;
    assert(s@.skip(0) =~= s@);
    while i < s.len() && total <= k
        invariant
            i <= s@.len(),
            total <= k + 4,
            k <= 4,
            byte_len(s@) == total + byte_len(s@.skip(i as int)),
        decreases s.len() - i,
    {
        let ghost rest = s@.skip(i as int);
        assert(rest.drop_first() =~= s@.skip(i + 1));
        total = total + utf8_width(s[i]);
        i = i + 1;
    }
    proof {
        lemma_byte_len_nonneg(s@.skip(i as int));
        if i == s@.len() {
            assert(s@.skip(i as int).len() == 0);
        }
    }
    total > k
}

proof fn lemma_byte_len_nonneg(s: Seq<char>)
    ensures
        byte_len(s) >= 0,
    decreases s.len(),
{
    if s.len() > 0 {
        lemma_byte_len_nonneg(s.drop_first());
    }
}

/// Whether `s` begins with the ASCII article `art`, ignoring ASCII case.
fn starts_with_article(s: &Vec<char>, art: &Vec<char>) -> (r: bool)
    ensures
        r == starts_ci(s@, art@),
{
    if s.len() < art.len() {
        return false;
    }
    let mut i: usize = 0;
    while i < art.len()
        invariant
            s@.len() >= art@.len(),
            i <= art@.len(),
            forall|j: int| 0 <= j < i ==> ascii_lower(#[trigger] s@[j]) == art@[j],
        decreases art.len() - i,
    {
        if to_ascii_lower(s[i]) != art[i] {
            return false;
        }
        i = i + 1;
    }
    true
}

fn article_chars(which: u8) -> (r: Vec<char>)
    ensures
        which == 0 ==> r@ == the_article(),
        which == 1 ==> r@ == a_article(),
        which >= 2 ==> r@ == an_article(),
{
    let mut r = Vec::new();
    if which == 0 {
        r.push('t');
        r.push('h');
        r.push('e');
        r.push(' ');
        assert(r@ =~= the_article());
    } else if which == 1 {
        r.push('a');
        r.push(' ');
        assert(r@ =~= a_article());
    } else {
        r.push('a');
        r.push('n');
        r.push(' ');
        assert(r@ =~= an_article());
    }
    r
}

/// Remove a leading "the ", "a " or "an " (ASCII case ignored, checked in that
/// order) when the value is longer in bytes than the article; a value that
/// does not begin with one is returned unchanged.
pub fn strip_leading_articles(s: &Vec<char>) -> (r: Vec<char>)
    ensures
        r@ == strip_articles_model(s@),
{
    let the = article_chars(0);
    let a = article_chars(1);
    let an = article_chars(2);
    if byte_len_exceeds(s, 4) && starts_with_article(s, &the) {
        return subvec(s, 4, s.len());
    }
    if byte_len_exceeds(s, 2) && starts_with_article(s, &a) {
        return subvec(s, 2, s.len());
    }
    if byte_len_exceeds(s, 3) && starts_with_article(s, &an) {
        return subvec(s, 3, s.len());
    }
    subvec(s, 0, s.len())
}

fn apply_transform(s: &Vec<char>, t: Transform) -> (r: Vec<char>)
    ensures
        r@ == transform_model(s@, t),
{
    match t {
        Transform::Trim => trim_chars(s),
        Transform::Lowercase => ascii_lowercase(s),
        Transform::AsciiNormalize => ascii_normalize(s),
        Transform::StripArticles => strip_leading_articles(s),
    }
}

fn apply_transforms(s: &Vec<char>, transforms: &Vec<Transform>) -> (r: Vec<char>)
    ensures
        r@ == apply_model(s@, transforms@),
{
    let mut current = subvec(s, 0, s.len());
    assert(s@.subrange(0, s@.len() as int) =~= s@);
    let mut i: usize = 0;
    while i < transforms.len()
        invariant
            i <= transforms@.len(),
            current@ == apply_model(s@, transforms@.take(i as int)),
        decreases transforms.len() - i,
    {
        proof {
            assert(transforms@.take(i + 1).drop_last() =~= transforms@.take(i as int));
        }
        current = apply_transform(&current, transforms[i]);
        i = i + 1;
    }
    assert(transforms@.take(transforms@.len() as int) =~= transforms@);
    current
}


// ── Parser model ──────────────────────────────────────────────────────────────

/// Index of the first `c` at or after `i`, or `s.len()` if there is none.
pub open spec fn find_char(s: Seq<char>, c: char, i: int) -> int
    decreases s.len() - i,
{
    if 0 <= i < s.len() {
        if s[i] == c {
            i
        } else {
            find_char(s, c, i + 1)
        }
    } else {
        s.len() as int
    }
}

/// Index of the `}` that closes a group whose contents start before `i` at
/// nesting `depth`, or `s.len()` when the group is never closed.
pub open spec fn close_index(s: Seq<char>, i: int, depth: nat) -> int
    decreases s.len() - i,
{
    if 0 <= i < s.len() {
        if s[i] == '{' {
            close_index(s, i + 1, depth + 1)
        } else if s[i] == '}' {
            if depth <= 1 {
                i
            } else {
                close_index(s, i + 1, (depth - 1) as nat)
            }
        } else {
            close_index(s, i + 1, depth)
        }
    } else {
        s.len() as int
    }
}

/// Index of the first `:-` at or after `i` that is not inside a `{…}` pair
/// (`depth` counts the pairs open before `i`), or `s.len()` if there is none.
pub open spec fn fallback_sep(s: Seq<char>, i: int, depth: nat) -> int
    decreases s.len() - i,
{
    if 0 <= i < s.len() {
        if s[i] == '{' {
            fallback_sep(s, i + 1, depth + 1)
        } else if s[i] == '}' {
            fallback_sep(s, i + 1, if depth > 0 { (depth - 1) as nat } else { 0 })
        } else if s[i] == ':' && depth == 0 && i + 1 < s.len() && s[i + 1] == '-' {
            i
        } else {
            fallback_sep(s, i + 1, depth)
        }
    } else {
        s.len() as int
    }
}

/// The pieces of `s` between occurrences of `sep` (std's `str::split`).
pub open spec fn split_on(s: Seq<char>, sep: char) -> Seq<Seq<char>>
    decreases s.len(),
{
    let k = find_char(s, sep, 0);
    if k < s.len() {
        proof {
            lemma_find_char_range(s, sep, 0);
        }
        seq![s.take(k)] + split_on(s.skip(k + 1), sep)
    } else {
        seq![s]
    }
}

/// The transform a (trimmed) name stands for; an unknown name is `trim`.
pub open spec fn transform_named(t: Seq<char>) -> Transform {
    if t == "lowercase"@ {
        Transform::Lowercase
    } else if t == "trim"@ {
        Transform::Trim
    } else if t == "ascii_normalize"@ {
        Transform::AsciiNormalize
    } else if t == "strip_articles"@ {
        Transform::StripArticles
    } else {
        Transform::Trim
    }
}

/// The field name of `name|t1|t2…`: its first `|`-separated part, trimmed.
pub open spec fn field_name(part: Seq<char>) -> Seq<char> {
    trim_seq(split_on(part, '|')[0])
}

/// The transforms of `name|t1|t2…`, in order.
pub open spec fn field_transforms(part: Seq<char>) -> Seq<Transform> {
    split_on(part, '|').skip(1).map_values(|p: Seq<char>| transform_named(trim_seq(p)))
}

/// The segment written between `{` and `}`.
pub open spec fn field_model(t: Seq<char>) -> SegmentModel
    decreases t.len(),
{
    let q = fallback_sep(t, 0, 0);
    if q < t.len() {
        proof {
            lemma_fallback_sep_range(t, 0, 0);
        }
        SegmentModel::Field {
            name: field_name(t.take(q)),
            transforms: field_transforms(t.take(q)),
            fallback: parse_model(t.skip(q + 2)),
        }
    } else {
        SegmentModel::Field {
            name: field_name(t),
            transforms: field_transforms(t),
            fallback: Seq::empty(),
        }
    }
}

/// The segments a template source compiles to.
pub open spec fn parse_model(s: Seq<char>) -> Seq<SegmentModel>
    decreases s.len(),
{
    let p = find_char(s, '{', 0);
    if p < s.len() {
        proof {
            lemma_find_char_range(s, '{', 0);
            lemma_close_index_range(s, p + 1, 1);
        }
        let e = close_index(s, p + 1, 1);
        let head: Seq<SegmentModel> = if p > 0 {
            seq![SegmentModel::Literal(s.take(p))]
        } else {
            Seq::empty()
        };
        let rest = if e < s.len() {
            s.skip(e + 1)
        } else {
            Seq::empty()
        };
        head + seq![field_model(s.subrange(p + 1, e))] + parse_model(rest)
    } else if s.len() == 0 {
        Seq::empty()
    } else {
        seq![SegmentModel::Literal(s)]
    }
}

pub proof fn lemma_find_char_range(s: Seq<char>, c: char, i: int)
    requires
        0 <= i,
    ensures
        i <= find_char(s, c, i) <= s.len() || (i > s.len() && find_char(s, c, i) == s.len()),
        find_char(s, c, i) < s.len() ==> s[find_char(s, c, i)] == c,
        forall|j: int| i <= j < find_char(s, c, i) ==> s[j] != c,
    decreases s.len() - i,
{
    if i < s.len() && s[i] != c {
        lemma_find_char_range(s, c, i + 1);
    }
}

pub proof fn lemma_close_index_range(s: Seq<char>, i: int, depth: nat)
    requires
        0 <= i <= s.len(),
    ensures
        i <= close_index(s, i, depth) <= s.len(),
    decreases s.len() - i,
{
    if i < s.len() {
        if s[i] == '{' {
            lemma_close_index_range(s, i + 1, depth + 1);
        } else if s[i] == '}' {
            if depth > 1 {
                lemma_close_index_range(s, i + 1, (depth - 1) as nat);
            }
        } else {
            lemma_close_index_range(s, i + 1, depth);
        }
    }
}

pub proof fn lemma_fallback_sep_range(s: Seq<char>, i: int, depth: nat)
    requires
        0 <= i <= s.len(),
    ensures
        i <= fallback_sep(s, i, depth) <= s.len(),
        fallback_sep(s, i, depth) < s.len() ==> fallback_sep(s, i, depth) + 1 < s.len(),
    decreases s.len() - i,
{
    if i < s.len() {
        if s[i] == '{' {
            lemma_fallback_sep_range(s, i + 1, depth + 1);
        } else if s[i] == '}' {
            lemma_fallback_sep_range(s, i + 1, if depth > 0 { (depth - 1) as nat } else { 0 });
        } else if s[i] == ':' && depth == 0 && i + 1 < s.len() && s[i + 1] == '-' {
        } else {
            lemma_fallback_sep_range(s, i + 1, depth);
        }
    }
}

// ── Parser ────────────────────────────────────────────────────────────────────

fn find_char_exec(s: &Vec<char>, c: char, start: usize) -> (r: usize)
    requires
        start <= s@.len(),
    ensures
        r == find_char(s@, c, start as int),
{
    let mut i = start;
    while i < s.len() && s[i] != c
        invariant
            start <= i <= s@.len(),
            find_char(s@, c, start as int) == find_char(s@, c, i as int),
        decreases s.len() - i,
    {
        i = i + 1;
    }
    i
}

fn close_index_exec(s: &Vec<char>, start: usize) -> (r: usize)
    requires
        1 <= start <= s@.len(),
    ensures
        r == close_index(s@, start as int, 1),
{
    let n = s.len();
    let mut depth: usize = 1;
    let mut i = start;
    while i < n
        invariant
            n == s@.len(),
            1 <= start <= i <= s@.len(),
            1 <= depth <= i - start + 1,
            close_index(s@, start as int, 1) == close_index(s@, i as int, depth as nat),
        decreases s.len() - i,
    {
        let c = s[i];
        if c == '{' {
            depth = depth + 1;
        } else if c == '}' {
            if depth <= 1 {
                return i;
            }
            depth = depth - 1;
        }
        i = i + 1;
    }
    i
}

fn fallback_sep_exec(s: &Vec<char>) -> (r: usize)
    ensures
        r == fallback_sep(s@, 0, 0),
{
    let n = s.len();
    let mut depth: usize = 0;
    let mut i: usize = 0;
    while i < n
        invariant
            n == s@.len(),
            i <= s@.len(),
            depth <= i,
            fallback_sep(s@, 0, 0) == fallback_sep(s@, i as int, depth as nat),
        decreases s.len() - i,
    {
        let c = s[i];
        if c == '{' {
            depth = depth + 1;
        } else if c == '}' {
            if depth > 0 {
                depth = depth - 1;
            }
        } else if c == ':' && depth == 0 && i + 1 < s.len() && s[i + 1] == '-' {
            return i;
        }
        i = i + 1;
    }
    i
}

/// The `|`-separated parts of `s`.
fn split_bar(s: &Vec<char>) -> (r: Vec<Vec<char>>)
    ensures
        r@.len() == split_on(s@, '|').len(),
        forall|i: int| 0 <= i < r@.len() ==> (#[trigger] r@[i])@ == split_on(s@, '|')[i],
    decreases s@.len(),
{
    let k = find_char_exec(s, '|', 0);
    proof {
        lemma_find_char_range(s@, '|', 0);
    }
    let mut r: Vec<Vec<char>> = Vec::new();
    if k < s.len() {
        r.push(subvec(s, 0, k));
        let tail = subvec(s, k + 1, s.len());
        let mut rest = split_bar(&tail);
        let ghost first = r@;
        let ghost rest_v = rest@;
        r.append(&mut rest);
        assert forall|i: int| 0 <= i < r@.len() implies (#[trigger] r@[i])@ == split_on(
            s@,
            '|',
        )[i] by {
            if i >= 1 {
                assert(r@[i] == rest_v[i - 1]);
            }
        }
    } else {
        r.push(subvec(s, 0, s.len()));
        assert(s@.subrange(0, s@.len() as int) =~= s@);
    }
    r
}

fn transform_from_name(t: &Vec<char>) -> (r: Transform)
    ensures
        r == transform_named(t@),
{
    if chars_eq_str(t, "lowercase") {
        Transform::Lowercase
    } else if chars_eq_str(t, "trim") {
        Transform::Trim
    } else if chars_eq_str(t, "ascii_normalize") {
        Transform::AsciiNormalize
    } else if chars_eq_str(t, "strip_articles") {
        Transform::StripArticles
    } else {
        Transform::Trim
    }
}

fn parse_field_and_transforms(s: &Vec<char>) -> (r: (Vec<char>, Vec<Transform>))
    ensures
        r.0@ == field_name(s@),
        r.1@ == field_transforms(s@),
{
    let parts = split_bar(s);
    proof {
        lemma_split_nonempty(s@, '|');
    }
    let name = trim_chars(&parts[0]);
    let mut transforms: Vec<Transform> = Vec::new();
    let mut i: usize = 1;
    let ghost spec_parts = split_on(s@, '|');
    while i < parts.len()
        invariant
            1 <= i <= parts@.len(),
            parts@.len() == spec_parts.len(),
            spec_parts == split_on(s@, '|'),
            forall|j: int| 0 <= j < parts@.len() ==> (#[trigger] parts@[j])@ == spec_parts[j],
            transforms@ == spec_parts.skip(1).take(i - 1).map_values(
                |p: Seq<char>| transform_named(trim_seq(p)),
            ),
        decreases parts.len() - i,
    {
        let t = trim_chars(&parts[i]);
        transforms.push(transform_from_name(&t));
        i = i + 1;
        assert(transforms@ =~= spec_parts.skip(1).take(i - 1).map_values(
            |p: Seq<char>| transform_named(trim_seq(p)),
        ));
    }
    assert(spec_parts.skip(1).take(i - 1) =~= spec_parts.skip(1));
    (name, transforms)
}

proof fn lemma_split_nonempty(s: Seq<char>, sep: char)
    ensures
        split_on(s, sep).len() >= 1,
    decreases s.len(),
{
}

/// Parse the content between `{` and `}`.
fn parse_field(inner: &Vec<char>) -> (r: Segment)
    ensures
        seg_model(r) == field_model(inner@),
    decreases inner@.len(),
{
    let pos = fallback_sep_exec(inner);
    proof {
        lemma_fallback_sep_range(inner@, 0, 0);
    }
    if pos < inner.len() {
        let field_part = subvec(inner, 0, pos);
        let fallback_expr = subvec(inner, pos + 2, inner.len());
        let (name, transforms) = parse_field_and_transforms(&field_part);
        let fallback = parse_segments(&fallback_expr);
        Segment::Field { name, transforms, fallback }
    } else {
        let (name, transforms) = parse_field_and_transforms(inner);
        Segment::Field { name, transforms, fallback: Vec::new() }
    }
}

/// Compile template source into segments.
fn parse_segments(src: &Vec<char>) -> (r: Vec<Segment>)
    ensures
        segs_model(r@) == parse_model(src@),
    decreases src@.len(),
{
    let p = find_char_exec(src, '{', 0);
    proof {
        lemma_find_char_range(src@, '{', 0);
    }
    if p < src.len() {
        let e = close_index_exec(src, p + 1);
        proof {
            lemma_close_index_range(src@, p + 1, 1);
        }
        let mut segments: Vec<Segment> = Vec::new();
        if p > 0 {
            segments.push(Segment::Literal(subvec(src, 0, p)));
        }
        let inner = subvec(src, p + 1, e);
        let field = parse_field(&inner);
        let ghost before = segments@;
        segments.push(field);
        proof {
            lemma_segs_model_push(before, field);
            if p > 0 {
                lemma_segs_model_push(Seq::empty(), before[0]);
                assert(before =~= Seq::<Segment>::empty().push(before[0]));
            }
        }
        let rest = if e < src.len() {
            subvec(src, e + 1, src.len())
        } else {
            Vec::new()
        };
        let mut tail = parse_segments(&rest);
        let ghost head = segments@;
        let ghost tail_v = tail@;
        segments.append(&mut tail);
        proof {
            lemma_segs_model_concat(head, tail_v);
            assert(segments@ == head + tail_v);
        }
        segments
    } else if src.len() == 0 {
        Vec::new()
    } else {
        let mut segments: Vec<Segment> = Vec::new();
        let lit = Segment::Literal(subvec(src, 0, src.len()));
        segments.push(lit);
        proof {
            lemma_segs_model_push(Seq::empty(), lit);
            assert(segments@ =~= Seq::<Segment>::empty().push(lit));
            assert(src@.subrange(0, src@.len() as int) =~= src@);
        }
        segments
    }
}


// ── Evaluator model ───────────────────────────────────────────────────────────

/// The characters of an optional string.
pub open spec fn opt_view(o: Option<String>) -> Option<Seq<char>> {
    match o {
        Some(s) => Some(s@),
        None => None,
    }
}

/// The field values a lookup closure answers, as a function of the field name.
pub open spec fn lookup_fn<F: Fn(&str) -> Option<String>>(f: F) -> spec_fn(Seq<char>) -> Option<
    Seq<char>,
> {
    |k: Seq<char>|
        opt_view(
            (choose|r: Option<String>, s: &str| s@ == k && #[trigger] call_ensures(f, (s,), r)).0,
        )
}

/// The lookup answers the same value whenever it is asked for the same field name.
pub open spec fn lookup_deterministic<F: Fn(&str) -> Option<String>>(f: F) -> bool {
    forall|s1: &str, s2: &str, r1: Option<String>, r2: Option<String>|
        s1@ == s2@ && #[trigger] call_ensures(f, (s1,), r1) && #[trigger] call_ensures(f, (s2,), r2)
            ==> opt_view(r1) == opt_view(r2)
}

/// The lookup accepts every field name.
pub open spec fn lookup_total<F: Fn(&str) -> Option<String>>(f: F) -> bool {
    forall|s: &str| #[trigger] call_requires(f, (s,))
}

/// The text a sequence of segments evaluates to under `lookup`.
pub open spec fn eval_model(
    segs: Seq<SegmentModel>,
    lookup: spec_fn(Seq<char>) -> Option<Seq<char>>,
) -> Seq<char>
    decreases segs,
{
    if segs.len() == 0 {
        Seq::empty()
    } else {
        eval_model(segs.drop_last(), lookup) + seg_value(segs.last(), lookup)
    }
}

/// The text one segment evaluates to: a literal is itself; a field is its
/// transformed value when that is non-empty, and its fallback otherwise.
pub open spec fn seg_value(
    seg: SegmentModel,
    lookup: spec_fn(Seq<char>) -> Option<Seq<char>>,
) -> Seq<char>
    decreases seg,
{
    match seg {
        SegmentModel::Literal(t) => t,
        SegmentModel::Field { name, transforms, fallback } => match lookup(name) {
            Some(v) => {
                let w = apply_model(v, transforms);
                if w.len() > 0 {
                    w
                } else {
                    eval_model(fallback, lookup)
                }
            },
            None => eval_model(fallback, lookup),
        },
    }
}

proof fn lemma_lookup_answer<F: Fn(&str) -> Option<String>>(f: F, k: &str, r: Option<String>)
    requires
        lookup_deterministic(f),
        call_ensures(f, (k,), r),
    ensures
        lookup_fn(f)(k@) == opt_view(r),
{
    assert(exists|r1: Option<String>, s: &str| s@ == k@ && #[trigger] call_ensures(f, (s,), r1));
    let (r2, s2) = choose|r2: Option<String>, s2: &str|
        s2@ == k@ && #[trigger] call_ensures(f, (s2,), r2);
    assert(call_ensures(f, (s2,), r2));
    assert(opt_view(r2) == opt_view(r));
}

// ── Evaluator ─────────────────────────────────────────────────────────────────

/// The lookup's answers agree with the field function `l`.
pub open spec fn answers_agree<F: Fn(&str) -> Option<String>>(
    f: F,
    l: spec_fn(Seq<char>) -> Option<Seq<char>>,
) -> bool {
    forall|s: &str, r: Option<String>| #[trigger] call_ensures(f, (s,), r) ==> opt_view(r) == l(s@)
}

fn eval_segments<F: Fn(&str) -> Option<String>>(
    segments: &Vec<Segment>,
    lookup: &F,
    Ghost(lf): Ghost<spec_fn(Seq<char>) -> Option<Seq<char>>>,
) -> (r: Vec<char>)
    requires
        lookup_total(*lookup),
        answers_agree(*lookup, lf),
    ensures
        r@ == eval_model(segs_model(segments@), lf),
    decreases segments@,
{
    let mut out: Vec<char> = Vec::new();
    let mut i: usize = 0;
    while i < segments.len()
        invariant
            i <= segments@.len(),
            lookup_total(*lookup),
            answers_agree(*lookup, lf),
            out@ == eval_model(segs_model(segments@.take(i as int)), lf),
        decreases segments.len() - i,
    {
        let ghost pre = segments@.take(i as int);
        proof {
            assert(segments@.take(i + 1) =~= pre.push(segments@[i as int]));
            lemma_segs_model_push(pre, segments@[i as int]);
            lemma_segs_model_len_index(segments@, i as int);
            let sm = segs_model(pre).push(seg_model(segments@[i as int]));
            assert(sm.drop_last() =~= segs_model(pre));
        }
        let ghost old_out = out@;
        let ghost m = seg_model(segments@[i as int]);
        match &segments[i] {
            Segment::Literal(t) => {
                extend_chars(&mut out, t);
            },
            Segment::Field { name, transforms, fallback } => {
                let name_s = string_of(name);
                let key = name_s.as_str();
                let raw = lookup(key);
                assert(opt_view(raw) == lf(key@));
                let mut used = false;
                match raw {
                    Some(v) => {
                        let vc = chars_of(v.as_str());
                        let w = apply_transforms(&vc, transforms);
                        if w.len() > 0 {
                            extend_chars(&mut out, &w);
                            used = true;
                        }
                    },
                    None => {},
                }
                if !used {
                    assert(decreases_to!(segments@ => segments@[i as int]));
                    let f = eval_segments(fallback, lookup, Ghost(lf));
                    extend_chars(&mut out, &f);
                }
                assert(out@ == old_out + seg_value(m, lf));
            },
        }
        assert(out@ == old_out + seg_value(m, lf));
        i = i + 1;
    }
    assert(segments@.take(segments@.len() as int) =~= segments@);
    out
}

proof fn lemma_segs_model_len_index(v: Seq<Segment>, i: int)
    requires
        0 <= i < v.len(),
    ensures
        segs_model(v).len() == v.len(),
        segs_model(v)[i] == seg_model(v[i]),
    decreases v.len(),
{
    if i < v.len() - 1 {
        lemma_segs_model_len_index(v.drop_last(), i);
    } else {
        lemma_segs_model_len(v.drop_last());
    }
}

proof fn lemma_segs_model_len(v: Seq<Segment>)
    ensures
        segs_model(v).len() == v.len(),
    decreases v.len(),
{
    if v.len() > 0 {
        lemma_segs_model_len(v.drop_last());
    }
}

// ── Failure check ─────────────────────────────────────────────────────────────

// ── Copies ────────────────────────────────────────────────────────────────────

fn copy_transforms(v: &Vec<Transform>) -> (r: Vec<Transform>)
    ensures
        r@ == v@,
{
    let mut r: Vec<Transform> = Vec::new();
    let mut i: usize = 0;
    while i < v.len()
        invariant
            i <= v@.len(),
            r@ == v@.take(i as int),
        decreases v.len() - i,
    {
        r.push(v[i]);
        i = i + 1;
        assert(r@ =~= v@.take(i as int));
    }
    assert(v@.take(v@.len() as int) =~= v@);
    r
}

/// A copy of compiled segments with the same meaning.
fn copy_segments(v: &Vec<Segment>) -> (r: Vec<Segment>)
    ensures
        segs_model(r@) == segs_model(v@),
    decreases v@,
{
    let mut r: Vec<Segment> = Vec::new();
    let mut i: usize = 0;
    assert(v@.take(0) =~= Seq::<Segment>::empty());
    while i < v.len()
        invariant
            i <= v@.len(),
            segs_model(r@) == segs_model(v@.take(i as int)),
        decreases v.len() - i,
    {
        let seg = match &v[i] {
            Segment::Literal(t) => Segment::Literal(subvec(t, 0, t.len())),
            Segment::Field { name, transforms, fallback } => {
                assert(decreases_to!(v@ => v@[i as int]));
                Segment::Field {
                    name: subvec(name, 0, name.len()),
                    transforms: copy_transforms(transforms),
                    fallback: copy_segments(fallback),
                }
            },
        };
        proof {
            match v@[i as int] {
                Segment::Literal(t) => assert(t@.subrange(0, t@.len() as int) =~= t@),
                Segment::Field { name, transforms, fallback } => assert(name@.subrange(
                    0,
                    name@.len() as int,
                ) =~= name@),
            }
            assert(seg_model(seg) == seg_model(v@[i as int]));
            lemma_segs_model_push(r@, seg);
            lemma_segs_model_push(v@.take(i as int), v@[i as int]);
            assert(v@.take(i + 1) =~= v@.take(i as int).push(v@[i as int]));
        }
        r.push(seg);
        i = i + 1;
    }
    assert(v@.take(v@.len() as int) =~= v@);
    r
}

// ── Public API ────────────────────────────────────────────────────────────────

/// A compiled aggregation-key template.
#[derive(Debug)]
pub struct Template {
    segments: Vec<Segment>,
}

impl Clone for Template {
    fn clone(&self) -> (r: Self)
        ensures
            r@ == self@,
    {
        Template { segments: copy_segments(&self.segments) }
    }
}

impl View for Template {
    type V = Seq<SegmentModel>;

    closed spec fn view(&self) -> Seq<SegmentModel> {
        segs_model(self.segments@)
    }
}

impl Template {
    /// Parse a template string.  Never fails: an unknown field name simply
    /// evaluates to an empty string.
    pub fn parse(src: &str) -> (t: Self)
        ensures
            t@ == parse_model(src@),
    {
        let chars = chars_of(src);
        Template { segments: parse_segments(&chars) }
    }

    /// Evaluate the template against the field values `l` gives.
    pub(crate) fn eval_with<F: Fn(&str) -> Option<String>>(
        &self,
        lookup: &F,
        Ghost(l): Ghost<spec_fn(Seq<char>) -> Option<Seq<char>>>,
    ) -> (r: String)
        requires
            lookup_total(*lookup),
            answers_agree(*lookup, l),
        ensures
            r@ == eval_model(self@, l),
    {
        let out = eval_segments(&self.segments, lookup, Ghost(l));
        string_of(&out)
    }

    /// Evaluate the template against a set of named fields.
    ///
    /// `lookup` is called with a field name and returns the raw value, or
    /// `None` if the field is absent.
    pub fn eval(&self, lookup: &impl Fn(&str) -> Option<String>) -> (r: String)
        requires
            lookup_total(*lookup),
            lookup_deterministic(*lookup),
        ensures
            r@ == eval_model(self@, lookup_fn(*lookup)),
    {
        proof {
            assert forall|k: &str, r: Option<String>| #[trigger]
                call_ensures(*lookup, (k,), r) implies opt_view(r) == lookup_fn(*lookup)(k@) by {
                lemma_lookup_answer(*lookup, k, r);
            }
        }
        let out = eval_segments(&self.segments, lookup, Ghost(lookup_fn(*lookup)));
        string_of(&out)
    }
}


// ── Laws ──────────────────────────────────────────────────────────────────────

/// Every character of `s` is ASCII.
pub open spec fn all_ascii(s: Seq<char>) -> bool {
    forall|i: int| 0 <= i < s.len() ==> code(#[trigger] s[i]) < 128
}

/// A template with no `{` is a single literal: it evaluates to its own source,
/// whatever the fields hold.
pub proof fn law_literal_template(s: Seq<char>, l: spec_fn(Seq<char>) -> Option<Seq<char>>)
    requires
        forall|i: int| 0 <= i < s.len() ==> s[i] != '{',
    ensures
        eval_model(parse_model(s), l) == s,
{
    lemma_find_char_range(s, '{', 0);
    let segs = parse_model(s);
    if s.len() == 0 {
        assert(segs.len() == 0);
    } else {
        assert(segs == seq![SegmentModel::Literal(s)]);
        assert(segs.drop_last() =~= Seq::<SegmentModel>::empty());
        assert(eval_model(Seq::<SegmentModel>::empty(), l) =~= Seq::<char>::empty());
        assert(segs.last() == SegmentModel::Literal(s));
        assert(seg_value(segs.last(), l) == s);
        assert(eval_model(segs, l) =~= s);
    }
}

proof fn lemma_apply_first(v: Seq<char>, t: Transform, ts: Seq<Transform>)
    ensures
        apply_model(v, seq![t] + ts) == apply_model(transform_model(v, t), ts),
    decreases ts.len(),
{
    if ts.len() == 0 {
        let all = seq![t] + ts;
        assert(all.drop_last() =~= Seq::<Transform>::empty());
        assert(all.last() == t);
        assert(apply_model(v, Seq::<Transform>::empty()) == v);
        assert(ts =~= Seq::<Transform>::empty());
        assert(apply_model(transform_model(v, t), Seq::<Transform>::empty()) == transform_model(v, t));
    } else {
        lemma_apply_first(v, t, ts.drop_last());
        let all = seq![t] + ts;
        assert(all.drop_last() =~= seq![t] + ts.drop_last());
        assert(all.last() == ts.last());
        assert(apply_model(v, all) == transform_model(apply_model(v, all.drop_last()), all.last()));
    }
}

/// When `lowercase` comes first, values that differ only in ASCII case give
/// the same result whatever transforms follow: case variants of one name
/// produce the same aggregation key.
pub proof fn law_lowercase_first_ignores_case(v1: Seq<char>, v2: Seq<char>, ts: Seq<Transform>)
    requires
        ascii_lower_seq(v1) == ascii_lower_seq(v2),
    ensures
        apply_model(v1, seq![Transform::Lowercase] + ts) == apply_model(
            v2,
            seq![Transform::Lowercase] + ts,
        ),
{
    lemma_apply_first(v1, Transform::Lowercase, ts);
    lemma_apply_first(v2, Transform::Lowercase, ts);
}

/// Every character of `s` is printable ASCII (U+0020..U+007E).
pub open spec fn all_printable(s: Seq<char>) -> bool {
    forall|i: int| 0 <= i < s.len() ==> 0x20 <= code(#[trigger] s[i]) <= 0x7E
}

proof fn lemma_normalize_printable(s: Seq<char>)
    ensures
        all_printable(ascii_normalize_model(s)),
        ascii_normalize_model(s).len() <= s.len(),
        all_printable(s) ==> ascii_normalize_model(s) == s,
    decreases s.len(),
{
    if s.len() > 0 {
        lemma_normalize_printable(s.drop_last());
        let rest = ascii_normalize_model(s.drop_last());
        crate::decompose::lemma_decomposition_base_printable(code(s.last()));
        if all_printable(s) {
            assert(all_printable(s.drop_last())) by {
                assert forall|i: int| 0 <= i < s.drop_last().len() implies 0x20 <= code(
                    #[trigger] s.drop_last()[i],
                ) <= 0x7E by {
                    assert(s.drop_last()[i] == s[i]);
                }
            }
            assert(0x20 <= code(s[s.len() - 1]) <= 0x7E);
            assert(s.drop_last().push(s.last()) =~= s);
        }
        match normalize_char(s.last()) {
            Some(c) => {
                assert forall|i: int| 0 <= i < rest.push(c).len() implies 0x20 <= code(
                    #[trigger] rest.push(c)[i],
                ) <= 0x7E by {
                    if i < rest.len() {
                        assert(rest.push(c)[i] == rest[i]);
                    }
                }
            },
            None => {},
        }
    }
}

proof fn lemma_normalize_ascii(s: Seq<char>)
    ensures
        all_ascii(ascii_normalize_model(s)),
{
    lemma_normalize_printable(s);
    let r = ascii_normalize_model(s);
    assert forall|i: int| 0 <= i < r.len() implies code(#[trigger] r[i]) < 128 by {
        assert(0x20 <= code(r[i]) <= 0x7E);
    }
}

/// `ascii_normalize` leaves only printable ASCII characters, never makes a
/// value longer, and leaves a value of printable ASCII characters unchanged.
pub proof fn law_ascii_normalize_is_ascii(s: Seq<char>)
    ensures
        all_printable(ascii_normalize_model(s)),
        all_ascii(ascii_normalize_model(s)),
        ascii_normalize_model(s).len() <= s.len(),
        all_printable(s) ==> ascii_normalize_model(s) == s,
{
    lemma_normalize_printable(s);
    lemma_normalize_ascii(s);
}

proof fn lemma_transform_keeps_ascii(s: Seq<char>, t: Transform)
    requires
        all_ascii(s),
    ensures
        all_ascii(transform_model(s, t)),
{
    let r = transform_model(s, t);
    match t {
        Transform::Lowercase => {
            assert forall|i: int| 0 <= i < r.len() implies code(#[trigger] r[i]) < 128 by {
                assert(code(s[i]) < 128);
            }
        },
        Transform::Trim => {
            let a = crate::text::lead_end(s, 0);
            let b = crate::text::trail_start(s, s.len() as int);
            crate::text::lemma_trim_bounds(s);
            if a < b {
                assert forall|i: int| 0 <= i < r.len() implies code(#[trigger] r[i]) < 128 by {
                    assert(r[i] == s[a + i]);
                }
            }
        },
        Transform::AsciiNormalize => {
            lemma_normalize_ascii(s);
        },
        Transform::StripArticles => {
            assert forall|i: int| 0 <= i < r.len() implies code(#[trigger] r[i]) < 128 by {
                if r.len() < s.len() {
                    assert(r[i] == s[i + (s.len() - r.len())]);
                } else {
                    assert(r[i] == s[i]);
                }
            }
        },
    }
}

proof fn lemma_ascii_chain(s: Seq<char>, ts: Seq<Transform>)
    requires
        all_ascii(s),
    ensures
        all_ascii(apply_model(s, ts)),
    decreases ts.len(),
{
    if ts.len() > 0 {
        lemma_ascii_chain(s, ts.drop_last());
        lemma_transform_keeps_ascii(apply_model(s, ts.drop_last()), ts.last());
    }
}

/// Every chain of transforms turns an ASCII value into an ASCII value.
pub proof fn law_ascii_values_stay_ascii(s: Seq<char>, ts: Seq<Transform>)
    requires
        all_ascii(s),
    ensures
        all_ascii(apply_model(s, ts)),
{
    lemma_ascii_chain(s, ts);
}

/// The change of brace depth a character makes.
pub open spec fn brace_delta(c: char) -> int {
    if c == '{' {
        1
    } else if c == '}' {
        -1
    } else {
        0
    }
}

/// The count of `{` minus the count of `}` in `t`.
pub open spec fn brace_balance(t: Seq<char>) -> int
    decreases t.len(),
{
    if t.len() == 0 {
        0
    } else {
        brace_balance(t.drop_last()) + brace_delta(t.last())
    }
}

/// The braces of `t` are properly nested: no prefix closes more than it
/// opened, and the whole text closes all it opens.
pub open spec fn braces_nested(t: Seq<char>) -> bool {
    &&& forall|k: int| 0 <= k <= t.len() ==> brace_balance(#[trigger] t.take(k)) >= 0
    &&& brace_balance(t) == 0
}

/// A field name as written in a template: no braces, `:`, `|` or whitespace.
pub open spec fn plain_field_name(f: Seq<char>) -> bool {
    forall|i: int|
        0 <= i < f.len() ==> {
            let c = #[trigger] f[i];
            c != '{' && c != '}' && c != ':' && c != '|' && !is_ws(c)
        }
}

proof fn lemma_balance_concat(a: Seq<char>, b: Seq<char>)
    ensures
        brace_balance(a + b) == brace_balance(a) + brace_balance(b),
    decreases b.len(),
{
    if b.len() == 0 {
        assert(a + b =~= a);
    } else {
        lemma_balance_concat(a, b.drop_last());
        assert((a + b).drop_last() =~= a + b.drop_last());
        assert((a + b).last() == b.last());
    }
}

proof fn lemma_balance_brace_free(a: Seq<char>)
    requires
        forall|i: int| 0 <= i < a.len() ==> a[i] != '{' && a[i] != '}',
    ensures
        brace_balance(a) == 0,
    decreases a.len(),
{
    if a.len() > 0 {
        lemma_balance_brace_free(a.drop_last());
    }
}

proof fn lemma_nested_after_plain(a: Seq<char>, e: Seq<char>)
    requires
        forall|i: int| 0 <= i < a.len() ==> a[i] != '{' && a[i] != '}',
        braces_nested(e),
    ensures
        braces_nested(a + e),
{
    let t = a + e;
    assert forall|k: int| 0 <= k <= t.len() implies brace_balance(#[trigger] t.take(k)) >= 0 by {
        if k <= a.len() {
            assert(t.take(k) =~= a.take(k));
            lemma_balance_brace_free(a.take(k));
        } else {
            assert(t.take(k) =~= a + e.take(k - a.len()));
            lemma_balance_concat(a, e.take(k - a.len()));
            lemma_balance_brace_free(a);
        }
    }
    lemma_balance_concat(a, e);
    lemma_balance_brace_free(a);
}

/// Scanning a nested text that a `}` follows ends at that `}`.
proof fn lemma_close_scan(s: Seq<char>, off: int, t: Seq<char>, i: int)
    requires
        0 <= off,
        off + t.len() < s.len(),
        s.subrange(off, off + t.len()) == t,
        s[off + t.len()] == '}',
        braces_nested(t),
        off <= i <= off + t.len(),
    ensures
        close_index(s, i, (1 + brace_balance(t.take(i - off))) as nat) == off + t.len(),
    decreases off + t.len() - i,
{
    let k = i - off;
    if i == off + t.len() {
        assert(t.take(k) =~= t);
    } else {
        assert(s[i] == s.subrange(off, off + t.len())[k]);
        assert(t.take(k + 1).drop_last() =~= t.take(k));
        assert(t.take(k + 1).last() == t[k]);
        assert(brace_balance(t.take(k)) >= 0);
        assert(brace_balance(t.take(k + 1)) >= 0);
        lemma_close_scan(s, off, t, i + 1);
    }
}

proof fn lemma_fallback_sep_at_name_end(t: Seq<char>, n: int, i: int)
    requires
        0 <= i <= n,
        n + 1 < t.len(),
        forall|j: int| 0 <= j < n ==> t[j] != '{' && t[j] != '}' && t[j] != ':',
        t[n] == ':',
        t[n + 1] == '-',
    ensures
        fallback_sep(t, i, 0) == n,
    decreases n - i,
{
    if i < n {
        lemma_fallback_sep_at_name_end(t, n, i + 1);
    }
}

proof fn lemma_find_char_absent(s: Seq<char>, c: char, i: int)
    requires
        0 <= i <= s.len(),
        forall|j: int| i <= j < s.len() ==> s[j] != c,
    ensures
        find_char(s, c, i) == s.len(),
    decreases s.len() - i,
{
    if i < s.len() {
        lemma_find_char_absent(s, c, i + 1);
    }
}

/// `{f:-e}`, for a plain field name `f` and a fallback text `e` whose braces
/// are properly nested, compiles to the field `f` with no transforms and the
/// fallback `e`; it evaluates to the value of `f` when that is present and
/// non-empty, and to `e` evaluated otherwise (so `e` is evaluated only then).
pub proof fn law_fallback(
    f: Seq<char>,
    e: Seq<char>,
    l: spec_fn(Seq<char>) -> Option<Seq<char>>,
)
    requires
        plain_field_name(f),
        braces_nested(e),
    ensures
        parse_model("{"@ + f + ":-"@ + e + "}"@) == seq![
            SegmentModel::Field { name: f, transforms: Seq::empty(), fallback: parse_model(e) },
        ],
        eval_model(parse_model("{"@ + f + ":-"@ + e + "}"@), l) == (match l(f) {
            Some(v) => if v.len() > 0 {
                v
            } else {
                eval_model(parse_model(e), l)
            },
            None => eval_model(parse_model(e), l),
        }),
{
    reveal_strlit("{");
    reveal_strlit("}");
    reveal_strlit(":-");
    let a = f + ":-"@;
    let t = a + e;
    let src = "{"@ + f + ":-"@ + e + "}"@;
    assert(src =~= seq!['{'] + t + seq!['}']);
    let n = src.len() as int;
    // The field group spans the whole source.
    assert(src[0] == '{');
    assert(find_char(src, '{', 0) == 0);
    assert forall|i: int| 0 <= i < a.len() implies a[i] != '{' && a[i] != '}' by {
        if i < f.len() {
            assert(a[i] == f[i]);
        }
    }
    lemma_nested_after_plain(a, e);
    assert(src.subrange(1, 1 + t.len() as int) =~= t);
    assert(t.take(0) =~= Seq::<char>::empty());
    lemma_close_scan(src, 1, t, 1);
    assert(close_index(src, 1, 1) == n - 1);
    assert(src.subrange(1, n - 1) =~= t);
    assert(src.skip(n) =~= Seq::<char>::empty());
    let empty = Seq::<char>::empty();
    assert(find_char(empty, '{', 0) == 0);
    assert(parse_model(empty) =~= Seq::<SegmentModel>::empty());
    // Inside the group: the name ends at the first `:-`.
    assert forall|j: int| 0 <= j < f.len() implies t[j] != '{' && t[j] != '}' && t[j] != ':' by {
        assert(t[j] == f[j]);
    }
    assert(t[f.len() as int] == ':');
    assert(t[f.len() as int + 1] == '-');
    lemma_fallback_sep_at_name_end(t, f.len() as int, 0);
    assert(t.take(f.len() as int) =~= f);
    assert(t.skip(f.len() as int + 2) =~= e);
    lemma_find_char_absent(f, '|', 0);
    assert(split_on(f, '|') == seq![f]);
    if f.len() > 0 {
        assert(!is_ws(f[0]));
        assert(!is_ws(f[f.len() - 1]));
        assert(lead_end(f, 0) == 0);
        assert(trail_start(f, f.len() as int) == f.len());
        assert(f.subrange(0, f.len() as int) =~= f);
    }
    assert(trim_seq(f) == f);
    assert(seq![f].skip(1) =~= Seq::<Seq<char>>::empty());
    assert(field_transforms(f) =~= Seq::<Transform>::empty());
    let seg = SegmentModel::Field {
        name: f,
        transforms: Seq::<Transform>::empty(),
        fallback: parse_model(e),
    };
    assert(field_model(t) == seg);
    assert(parse_model(src) =~= seq![seg]);
    // Evaluation of the one field.
    let segs = seq![seg];
    assert(segs.drop_last() =~= Seq::<SegmentModel>::empty());
    assert(segs.last() == seg);
    assert(eval_model(Seq::<SegmentModel>::empty(), l) =~= Seq::<char>::empty());
    match l(f) {
        Some(v) => {
            assert(apply_model(v, Seq::<Transform>::empty()) == v);
        },
        None => {},
    }
    assert(eval_model(segs, l) =~= seg_value(seg, l));
}



/// The ASCII character that begins the canonical (NFD) decomposition of `c`,
/// written out as the precomposed characters of each such character, grouped
/// by that first character (Unicode 14): `'ü'` is `u` with a diaeresis, `'Å'`
/// is `A` with a ring above, `'K'` (KELVIN SIGN) is `K` alone, and so on.
/// Every other character decomposes to no ASCII character, or to itself.
pub open spec fn nfd_ascii_base(c: char) -> Option<char> {
    match c {
        '\u{37e}' => Some(';'),
        '\u{226e}' => Some('<'),
        '\u{2260}' => Some('='),
        '\u{226f}' => Some('>'),
        'À' | 'Á' | 'Â' | 'Ã' | 'Ä' | 'Å' | 'Ā' | 'Ă' | 'Ą' | 'Ǎ' | 'Ǟ' | 'Ǡ' | 'Ǻ' | 'Ȁ' | 'Ȃ' | 'Ȧ' | 'Ḁ' | 'Ạ' | 'Ả' | 'Ấ' | 'Ầ' | 'Ẩ' | 'Ẫ' | 'Ậ' | 'Ắ' | 'Ằ' | 'Ẳ' | 'Ẵ' | 'Ặ' | '\u{212b}' => Some('A'),
        'Ḃ' | 'Ḅ' | 'Ḇ' => Some('B'),
        'Ç' | 'Ć' | 'Ĉ' | 'Ċ' | 'Č' | 'Ḉ' => Some('C'),
        'Ď' | 'Ḋ' | 'Ḍ' | 'Ḏ' | 'Ḑ' | 'Ḓ' => Some('D'),
        'È' | 'É' | 'Ê' | 'Ë' | 'Ē' | 'Ĕ' | 'Ė' | 'Ę' | 'Ě' | 'Ȅ' | 'Ȇ' | 'Ȩ' | 'Ḕ' | 'Ḗ' | 'Ḙ' | 'Ḛ' | 'Ḝ' | 'Ẹ' | 'Ẻ' | 'Ẽ' | 'Ế' | 'Ề' | 'Ể' | 'Ễ' | 'Ệ' => Some('E'),
        'Ḟ' => Some('F'),
        'Ĝ' | 'Ğ' | 'Ġ' | 'Ģ' | 'Ǧ' | 'Ǵ' | 'Ḡ' => Some('G'),
        'Ĥ' | 'Ȟ' | 'Ḣ' | 'Ḥ' | 'Ḧ' | 'Ḩ' | 'Ḫ' => Some('H'),
        'Ì' | 'Í' | 'Î' | 'Ï' | 'Ĩ' | 'Ī' | 'Ĭ' | 'Į' | 'İ' | 'Ǐ' | 'Ȉ' | 'Ȋ' | 'Ḭ' | 'Ḯ' | 'Ỉ' | 'Ị' => Some('I'),
        'Ĵ' => Some('J'),
        'Ķ' | 'Ǩ' | 'Ḱ' | 'Ḳ' | 'Ḵ' | '\u{212a}' => Some('K'),
        'Ĺ' | 'Ļ' | 'Ľ' | 'Ḷ' | 'Ḹ' | 'Ḻ' | 'Ḽ' => Some('L'),
        'Ḿ' | 'Ṁ' | 'Ṃ' => Some('M'),
        'Ñ' | 'Ń' | 'Ņ' | 'Ň' | 'Ǹ' | 'Ṅ' | 'Ṇ' | 'Ṉ' | 'Ṋ' => Some('N'),
        'Ò' | 'Ó' | 'Ô' | 'Õ' | 'Ö' | 'Ō' | 'Ŏ' | 'Ő' | 'Ơ' | 'Ǒ' | 'Ǫ' | 'Ǭ' | 'Ȍ' | 'Ȏ' | 'Ȫ' | 'Ȭ' | 'Ȯ' | 'Ȱ' | 'Ṍ' | 'Ṏ' | 'Ṑ' | 'Ṓ' | 'Ọ' | 'Ỏ' | 'Ố' | 'Ồ' | 'Ổ' | 'Ỗ' | 'Ộ' | 'Ớ' | 'Ờ' | 'Ở' | 'Ỡ' | 'Ợ' => Some('O'),
        'Ṕ' | 'Ṗ' => Some('P'),
        'Ŕ' | 'Ŗ' | 'Ř' | 'Ȑ' | 'Ȓ' | 'Ṙ' | 'Ṛ' | 'Ṝ' | 'Ṟ' => Some('R'),
        'Ś' | 'Ŝ' | 'Ş' | 'Š' | 'Ș' | 'Ṡ' | 'Ṣ' | 'Ṥ' | 'Ṧ' | 'Ṩ' => Some('S'),
        'Ţ' | 'Ť' | 'Ț' | 'Ṫ' | 'Ṭ' | 'Ṯ' | 'Ṱ' => Some('T'),
        'Ù' | 'Ú' | 'Û' | 'Ü' | 'Ũ' | 'Ū' | 'Ŭ' | 'Ů' | 'Ű' | 'Ų' | 'Ư' | 'Ǔ' | 'Ǖ' | 'Ǘ' | 'Ǚ' | 'Ǜ' | 'Ȕ' | 'Ȗ' | 'Ṳ' | 'Ṵ' | 'Ṷ' | 'Ṹ' | 'Ṻ' | 'Ụ' | 'Ủ' | 'Ứ' | 'Ừ' | 'Ử' | 'Ữ' | 'Ự' => Some('U'),
        'Ṽ' | 'Ṿ' => Some('V'),
        'Ŵ' | 'Ẁ' | 'Ẃ' | 'Ẅ' | 'Ẇ' | 'Ẉ' => Some('W'),
        'Ẋ' | 'Ẍ' => Some('X'),
        'Ý' | 'Ŷ' | 'Ÿ' | 'Ȳ' | 'Ẏ' | 'Ỳ' | 'Ỵ' | 'Ỷ' | 'Ỹ' => Some('Y'),
        'Ź' | 'Ż' | 'Ž' | 'Ẑ' | 'Ẓ' | 'Ẕ' => Some('Z'),
        '\u{1fef}' => Some('`'),
        'à' | 'á' | 'â' | 'ã' | 'ä' | 'å' | 'ā' | 'ă' | 'ą' | 'ǎ' | 'ǟ' | 'ǡ' | 'ǻ' | 'ȁ' | 'ȃ' | 'ȧ' | 'ḁ' | 'ạ' | 'ả' | 'ấ' | 'ầ' | 'ẩ' | 'ẫ' | 'ậ' | 'ắ' | 'ằ' | 'ẳ' | 'ẵ' | 'ặ' => Some('a'),
        'ḃ' | 'ḅ' | 'ḇ' => Some('b'),
        'ç' | 'ć' | 'ĉ' | 'ċ' | 'č' | 'ḉ' => Some('c'),
        'ď' | 'ḋ' | 'ḍ' | 'ḏ' | 'ḑ' | 'ḓ' => Some('d'),
        'è' | 'é' | 'ê' | 'ë' | 'ē' | 'ĕ' | 'ė' | 'ę' | 'ě' | 'ȅ' | 'ȇ' | 'ȩ' | 'ḕ' | 'ḗ' | 'ḙ' | 'ḛ' | 'ḝ' | 'ẹ' | 'ẻ' | 'ẽ' | 'ế' | 'ề' | 'ể' | 'ễ' | 'ệ' => Some('e'),
        'ḟ' => Some('f'),
        'ĝ' | 'ğ' | 'ġ' | 'ģ' | 'ǧ' | 'ǵ' | 'ḡ' => Some('g'),
        'ĥ' | 'ȟ' | 'ḣ' | 'ḥ' | 'ḧ' | 'ḩ' | 'ḫ' | 'ẖ' => Some('h'),
        'ì' | 'í' | 'î' | 'ï' | 'ĩ' | 'ī' | 'ĭ' | 'į' | 'ǐ' | 'ȉ' | 'ȋ' | 'ḭ' | 'ḯ' | 'ỉ' | 'ị' => Some('i'),
        'ĵ' | 'ǰ' => Some('j'),
        'ķ' | 'ǩ' | 'ḱ' | 'ḳ' | 'ḵ' => Some('k'),
        'ĺ' | 'ļ' | 'ľ' | 'ḷ' | 'ḹ' | 'ḻ' | 'ḽ' => Some('l'),
        'ḿ' | 'ṁ' | 'ṃ' => Some('m'),
        'ñ' | 'ń' | 'ņ' | 'ň' | 'ǹ' | 'ṅ' | 'ṇ' | 'ṉ' | 'ṋ' => Some('n'),
        'ò' | 'ó' | 'ô' | 'õ' | 'ö' | 'ō' | 'ŏ' | 'ő' | 'ơ' | 'ǒ' | 'ǫ' | 'ǭ' | 'ȍ' | 'ȏ' | 'ȫ' | 'ȭ' | 'ȯ' | 'ȱ' | 'ṍ' | 'ṏ' | 'ṑ' | 'ṓ' | 'ọ' | 'ỏ' | 'ố' | 'ồ' | 'ổ' | 'ỗ' | 'ộ' | 'ớ' | 'ờ' | 'ở' | 'ỡ' | 'ợ' => Some('o'),
        'ṕ' | 'ṗ' => Some('p'),
        'ŕ' | 'ŗ' | 'ř' | 'ȑ' | 'ȓ' | 'ṙ' | 'ṛ' | 'ṝ' | 'ṟ' => Some('r'),
        'ś' | 'ŝ' | 'ş' | 'š' | 'ș' | 'ṡ' | 'ṣ' | 'ṥ' | 'ṧ' | 'ṩ' => Some('s'),
        'ţ' | 'ť' | 'ț' | 'ṫ' | 'ṭ' | 'ṯ' | 'ṱ' | 'ẗ' => Some('t'),
        'ù' | 'ú' | 'û' | 'ü' | 'ũ' | 'ū' | 'ŭ' | 'ů' | 'ű' | 'ų' | 'ư' | 'ǔ' | 'ǖ' | 'ǘ' | 'ǚ' | 'ǜ' | 'ȕ' | 'ȗ' | 'ṳ' | 'ṵ' | 'ṷ' | 'ṹ' | 'ṻ' | 'ụ' | 'ủ' | 'ứ' | 'ừ' | 'ử' | 'ữ' | 'ự' => Some('u'),
        'ṽ' | 'ṿ' => Some('v'),
        'ŵ' | 'ẁ' | 'ẃ' | 'ẅ' | 'ẇ' | 'ẉ' | 'ẘ' => Some('w'),
        'ẋ' | 'ẍ' => Some('x'),
        'ý' | 'ÿ' | 'ŷ' | 'ȳ' | 'ẏ' | 'ẙ' | 'ỳ' | 'ỵ' | 'ỷ' | 'ỹ' => Some('y'),
        'ź' | 'ż' | 'ž' | 'ẑ' | 'ẓ' | 'ẕ' => Some('z'),
        _ => None,
    }
}

/// `ascii_normalize` keeps, of each non-ASCII character, exactly the ASCII
/// character its canonical decomposition begins with (the combining marks
/// that follow are dropped), and drops every character whose decomposition
/// begins with no ASCII character.
#[verifier::rlimit(100)]
pub proof fn law_normalize_keeps_decomposition_base(c: char)
    requires
        code(c) >= 0x80,
    ensures
        normalize_char(c) == nfd_ascii_base(c),
{
}

} // verus!
